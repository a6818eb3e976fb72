pub mod body_element;
pub mod status_bar_element;
