//! A terminal client for reading, liking, retweeting and writing posts on X.
//!
//! The library holds the client's state machine, its key handling, the
//! requests it sends and the text it shows; the binary around it performs the
//! terminal and network work.

pub mod text;
pub mod utils;
pub mod api;
pub mod state;
pub mod keys;
pub mod startup;
pub mod modes;
pub mod ui;
pub mod collector;
pub mod app_state;
pub mod local;
