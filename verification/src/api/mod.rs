pub mod auth;
pub mod local;
pub mod twitter;
