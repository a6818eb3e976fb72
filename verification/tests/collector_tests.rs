use chrono::NaiveDateTime;
use twitter_tui::collector::app_state::Mode;
use twitter_tui::collector::bottom_bar_element::{BottomBarElement, divider_text, header_right_text};
use twitter_tui::collector::read_view::{BodyElement, StatusBarElement};
use twitter_tui::collector::tweet_widget::{Tweet, TweetState, TweetWidget};
use twitter_tui::collector::write_view::StatusBarElement as WriteStatusBar;
use twitter_tui::keys::{KeyCode, KeyEvent, KeyModifiers};

fn tweet(body: &str) -> Tweet {
    Tweet {
        name: "Manish Goregaokar".into(),
        handle: "@ManishEarth".into(),
        time: NaiveDateTime::default(),
        body: body.into(),
        replies: 178,
        retweets: 850,
        likes: 7100,
        liked: true,
        retweeted: false,
    }
}

#[test]
fn collector_status_bars() {
    let read = StatusBarElement::new();
    let line = read.status_line(42);
    assert_eq!(line.spans[0].content, " READ ");
    assert_eq!(line.spans[1].content, " fetched 42 posts ");
    let write = WriteStatusBar::new();
    assert_eq!(write.status_line().spans[0].content, " WRITE ");
}

#[test]
fn collector_widget_cuts_with_one_byte_kept_free() {
    let widget = TweetWidget::new(tweet("Unicode is solved. Yes there are edge cases."), TweetState::Normal);
    assert_eq!(widget.second_zone_body(1, 20), "Unicode...more info");
    assert_eq!(widget.clone().force_set_state(TweetState::Selected).state, TweetState::Selected);
    assert_eq!(TweetState::Selected.get_bg_color(), twitter_tui::utils::palette::Color::SelectBg);
    let third = widget.third_zone();
    assert_eq!(third.spans[0].content, "\u{21a9}178");
    assert_eq!(third.spans[1].content, " 850 ");
    assert_eq!(third.spans[2].content, "\u{2665}7100");
}

#[test]
fn collector_selection_may_pass_the_last_post() {
    let mut body = BodyElement::with_tweets(vec![tweet("a"), tweet("b")]);
    let j = KeyEvent::new(KeyCode::Char('j'), KeyModifiers::Empty);
    for _ in 0..5 {
        body.handle_key_event(j);
    }
    assert_eq!(body.clamp_list_index(100), 2);
    // Two rows of posts, scrolled so that position 2 (past the end) is last.
    let widgets = body.visible_widgets(8);
    assert_eq!(widgets.len(), 1);
    assert_eq!(widgets[0].tweet.body, "b");
    assert_eq!(widgets[0].state, TweetState::Normal);
    body.reset();
    let widgets = body.visible_widgets(8);
    assert_eq!(widgets.len(), 2);
    assert_eq!(widgets[0].state, TweetState::Selected);
    assert_eq!(widgets[1].state, TweetState::Normal);
}

#[test]
fn collector_bottom_bar_header_and_divider() {
    let bar = BottomBarElement::new();
    let read = bar.line(Mode::Read);
    assert_eq!(read.spans.len(), 11);
    assert_eq!(read.spans[9].content, " q ");
    let write = bar.line(Mode::Write);
    assert_eq!(write.spans[1].content, " Ctrl+Enter ");
    assert_eq!(divider_text(), " \u{25b8} Latest tweets");
    assert_eq!(header_right_text("cool_peanut"), " logged in as @cool_peanut ");
}
