pub mod domains_ids;
pub mod hub_context;
pub mod store_errors;
