//! Tenant administration: tenants, organizations, agencies and plans, the
//! rules that govern their changes, and the menus that tenants publish.
pub mod commands;
pub mod data;
pub mod domain;
pub mod operation;
pub mod handlers;
pub mod utils;
