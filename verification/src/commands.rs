pub mod agency_command;
pub mod organization_command;
pub mod plan_command;
pub mod tenant_command;
