pub mod agency_ops;
pub mod organization_ops;
pub mod plan_ops;
pub mod tenant_ops;
