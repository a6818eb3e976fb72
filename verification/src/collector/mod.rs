//! The timeline collector: a smaller terminal view over a fixed list of
//! posts, with its own bottom bar, header and status bars.

pub mod app_state;
pub mod bottom_bar_element;
pub mod read_view;
pub mod tweet_widget;
pub mod write_view;
