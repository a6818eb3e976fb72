pub mod read_view;
pub mod write_view;
