pub mod browser;
pub mod client;
pub mod models;
pub mod time;
