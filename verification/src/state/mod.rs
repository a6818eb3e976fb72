pub mod action;
pub mod app_state;
pub mod element_state;
pub mod read_state;
pub mod write_state;
pub mod laws;
