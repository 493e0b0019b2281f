pub mod agency_repo;
pub mod migration;
pub mod organization_repo;
pub mod plan_repo;
pub mod store;
pub mod tenant_repo;
