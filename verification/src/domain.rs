pub mod agency;
pub mod auth;
pub mod organization;
pub mod plans;
pub mod tenant;
