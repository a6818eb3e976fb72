pub mod bottom_bar_element;
pub mod divider_element;
pub mod header_element;
