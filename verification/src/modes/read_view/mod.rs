pub mod body_element;
pub mod status_bar_element;
pub mod tweet_widget;
