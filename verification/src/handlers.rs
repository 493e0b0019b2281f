pub mod http;
pub mod messages;
