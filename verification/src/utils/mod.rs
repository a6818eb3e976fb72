pub mod application_error;
pub mod palette;
