use chrono::NaiveDateTime;
use twitter_tui::api::twitter::models::{CreatePostOptions, Tweet};
use twitter_tui::keys::{KeyCode, KeyEvent, KeyModifiers};
use twitter_tui::modes::read_view::body_element::BodyElement;
use twitter_tui::modes::read_view::status_bar_element::StatusBarElement;
use twitter_tui::modes::read_view::tweet_widget::{TweetState, TweetWidget};
use twitter_tui::modes::write_view::body_element::{BodyElement as WriteBody, OptionFocus, WriteKeyOutcome};
use twitter_tui::modes::write_view::status_bar_element::StatusBarElement as WriteStatusBar;
use twitter_tui::state::action::Action;
use twitter_tui::state::app_state::{Mode, StatusMessage};
use twitter_tui::state::read_state::ReadState;
use twitter_tui::state::write_state::WriteState;
use twitter_tui::ui::bottom_bar_element::{BottomBarElement, shortcuts_read_mode};
use twitter_tui::ui::divider_element::DividerElement;
use twitter_tui::ui::header_element::HeaderElement;
use twitter_tui::utils::palette::{Alignment, Color, Line, Span, Style};

fn key_style() -> Style {
    Style::plain().fg(Color::TextDim).bg(Color::Border).bold()
}

fn action_style() -> Style {
    Style::plain().fg(Color::TextMute)
}

fn styled(s: &str, style: Style) -> Span {
    Span::styled(s.to_owned(), style)
}

fn simple_tweet() -> Tweet {
    Tweet {
        id: "test_id".to_owned(),
        name: "test_name".to_owned(),
        handle: "test_handle".to_owned(),
        time: NaiveDateTime::default(),
        body: "test_body".to_owned(),
        replies: 100,
        retweets: 100,
        likes: 100,
        liked: true,
        retweeted: false,
    }
}

fn long_tweet() -> Tweet {
    Tweet {
        body: "THIS IS A SUPER VERY LONG TEXT AND CUTTOFF POINT IS INEVITABLE; THIS IS A SUPER VERY LONG TEXT AND CUTTOFF POINT IS INEVITABLE; THIS IS A SUPER VERY LONG TEXT AND CUTTOFF POINT IS INEVITABLE".to_owned(),
        ..simple_tweet()
    }
}

#[test]
fn create_spans_from_chunk_should_create_correct_spans() {
    let chunks: Vec<(&str, &str)> = shortcuts_read_mode().into_iter().take(4).collect();
    let expected_result: Vec<Span> = vec![
        Span::raw(" ".to_owned()),
        styled(" j/k ", key_style()),
        styled(" scroll ", action_style()),
        styled(" r ", key_style()),
        styled(" retweet ", action_style()),
        styled(" l ", key_style()),
        styled(" like/unlike ", action_style()),
        styled(" Ctrl+w ", key_style()),
        styled(" new post ", action_style()),
    ];

    let result = BottomBarElement::create_spans_from_chunk(chunks.as_slice());

    assert_eq!(result, expected_result);
}

#[test]
fn create_lines_should_correct_lines() {
    let first_spans: Vec<Span> = vec![
        Span::raw(" ".to_owned()),
        styled(" j/k ", key_style()),
        styled(" scroll ", action_style()),
        styled(" r ", key_style()),
        styled(" retweet ", action_style()),
        styled(" l ", key_style()),
        styled(" like/unlike ", action_style()),
        styled(" Ctrl+w ", key_style()),
        styled(" new post ", action_style()),
    ];
    let second_spans: Vec<Span> = vec![
        Span::raw(" ".to_owned()),
        styled(" Ctrl+r ", key_style()),
        styled(" refresh data ", action_style()),
        styled(" o ", key_style()),
        styled(" open ", action_style()),
        styled(" Ctrl+x ", key_style()),
        styled(" exit ", action_style()),
    ];
    let surface = Style::plain().bg(Color::Surface);
    let expected_result = vec![
        Line { spans: first_spans, style: surface, alignment: Alignment::Left },
        Line { spans: second_spans, style: surface, alignment: Alignment::Left },
    ];

    let result = BottomBarElement::create_lines(shortcuts_read_mode().as_slice());

    assert_eq!(result, expected_result);
}

#[test]
fn bottom_bar_of_write_mode_has_two_rows() {
    let bar = BottomBarElement::new(Mode::Write);
    let lines = bar.lines();
    assert_eq!(lines.len(), 2);
    assert_eq!(lines[0].spans.len(), 9);
    assert_eq!(lines[1].spans.len(), 3);
    assert_eq!(lines[1].spans[1].content, " Ctrl+x ");
    assert_eq!(lines[1].spans[2].content, " exit ");
}

#[test]
fn render_default_status_renders_cosistently() {
    let tweet_count = 500;

    let result = StatusBarElement::render_default_status(tweet_count);

    assert_eq!(
        result,
        Line {
            spans: vec![
                styled(" READ ", Style::plain().bold()),
                Span::raw(" fetched  fetched 500 posts posts ".to_owned()),
            ],
            style: Style::plain().fg(Color::White).bg(Color::Blue),
            alignment: Alignment::Left,
        }
    );
}

#[test]
fn get_status_message_styles_returns_expected_values() {
    let cases = [
        (StatusMessage::Liked, "\u{2665} LIKED", "Post liked", Color::Pink),
        (StatusMessage::Unliked, "\u{2661} UNLIKED", "Like removed", Color::Pink),
        (StatusMessage::Retweeted, "\u{21bb} RETWEETED", "Post retweeted", Color::Purple),
        (StatusMessage::AlreadyRetweeted, "^_^ ALREADY RETWEETED", "Post was retweeted already", Color::Purple),
        (StatusMessage::NewPostAdded, " \u{2713} SUCCESS ", "New post added", Color::Green),
    ];
    for (status, label, message, color) in cases {
        assert_eq!(StatusBarElement::get_status_message_styles(&status), (label, message, color));
    }
}

#[test]
fn render_custom_status_pads_label_and_message() {
    let line = StatusBarElement::render_custom_status(("\u{2665} LIKED", "Post liked", Color::Pink));
    assert_eq!(line.spans[0], styled(" \u{2665} LIKED ", Style::plain().bold()));
    assert_eq!(line.spans[1], Span::raw(" Post liked ".to_owned()));
    assert_eq!(line.style, Style::plain().fg(Color::White).bg(Color::Pink));
}

#[test]
fn read_status_line_follows_the_message() {
    let mut state = ReadState::new(vec![]);
    let bar = StatusBarElement;
    assert_eq!(bar.status_line(&state).spans[1].content, " fetched  fetched 0 posts posts ");
    state.set_status_message(Some(StatusMessage::Retweeted));
    assert_eq!(bar.status_line(&state).spans[0].content, " \u{21bb} RETWEETED ");
}

#[test]
fn write_status_line_shows_success_only_for_new_posts() {
    let bar = WriteStatusBar;
    let mut state = WriteState::default();
    assert_eq!(bar.status_line(&state).spans[0].content, " WRITE ");
    state.set_status_message(Some(StatusMessage::Liked));
    assert_eq!(bar.status_line(&state).spans[0].content, " WRITE ");
    assert_eq!(bar.status_line(&state).style, Style::plain().fg(Color::White).bg(Color::Red));
    state.set_status_message(Some(StatusMessage::NewPostAdded));
    let line = bar.status_line(&state);
    assert_eq!(line.spans[0].content, " \u{2713} SUCCESS ");
    assert_eq!(line.spans[1].content, "New post added! ");
    assert_eq!(line.style, Style::plain().fg(Color::White).bg(Color::Green));
}

#[test]
fn header_shows_title_and_user() {
    let sut = HeaderElement::new("Soup is good");
    assert_eq!(sut.left_widget.spans[0].content, " \u{2726} TWITTER / TUI ");
    assert_eq!(sut.left_widget.alignment, Alignment::Left);
    assert_eq!(sut.right_widget.spans[0].content, " logged in as @Soup is good ");
    assert_eq!(sut.right_widget.alignment, Alignment::Right);
    assert_eq!(sut.background, Style::plain().bg(Color::Surface).fg(Color::Blue).bold());
}

#[test]
fn divider_text_follows_the_mode() {
    assert_eq!(DividerElement::new(Mode::Read).text(), " \u{25b8} Latest tweets");
    assert_eq!(DividerElement::new(Mode::Write).text(), " \u{25b8} Whatcha cooking there? \u{1f440}");
}

#[test]
fn get_bg_color_should_return_correct_color() {
    assert_eq!(TweetState::Normal.get_bg_color(), Color::Bg);
    assert_eq!(TweetState::Selected.get_bg_color(), Color::SelectBg);
}

#[test]
fn normalize_second_zone_body_should_return_correct_result_when_cutoff_point_is_not_reached() {
    let tweet = simple_tweet();
    let widget = TweetWidget::new(&tweet, TweetState::Normal);
    assert_eq!(widget.normalize_second_zone_body(1, 20), tweet.body);
}

#[test]
fn normalize_second_zone_body_should_return_correct_result_when_cutoff_point_is_reached() {
    let tweet = long_tweet();
    let widget = TweetWidget::new(&tweet, TweetState::Normal);
    assert_eq!(widget.normalize_second_zone_body(1, 20), "THIS I...more info");
}

#[test]
fn normalize_second_zone_body_keeps_whole_characters() {
    let tweet = Tweet { body: "\u{e9}\u{e9}\u{e9}\u{e9}\u{e9}\u{e9}\u{e9}\u{e9}\u{e9}\u{e9}\u{e9}".to_owned(), ..simple_tweet() };
    let widget = TweetWidget::new(&tweet, TweetState::Normal);
    // 22 bytes in an area of 17: the cut at 3 bytes would split a character.
    assert_eq!(widget.normalize_second_zone_body(1, 17), format!("{}...more info", tweet.body));
    // in an area of 18 the cut at 4 bytes keeps two characters.
    assert_eq!(widget.normalize_second_zone_body(1, 18), "\u{e9}\u{e9}...more info");
}

#[test]
fn zones_show_author_and_counters() {
    let tweet = Tweet { retweeted: true, liked: false, likes: 7, replies: 3, ..simple_tweet() };
    let widget = TweetWidget::new(&tweet, TweetState::Selected);
    let first = widget.first_zone();
    assert_eq!(first.spans[0].content, "test_name");
    assert_eq!(first.spans[1].content, " test_handle");
    let third = widget.third_zone();
    assert_eq!(third.spans[0].content, "\u{21a9}3 ");
    assert_eq!(third.spans[1].content, "\u{25cf}retweeted ");
    assert_eq!(third.spans[1].style, Style::plain().fg(Color::Green));
    assert_eq!(third.spans[2].content, "\u{2661}7");
}

fn plain_key(c: char) -> KeyEvent {
    KeyEvent::new(KeyCode::Char(c), KeyModifiers::Empty)
}

#[test]
fn read_body_moves_within_the_list() {
    let tweets = vec![simple_tweet(), long_tweet(), simple_tweet()];
    let state = ReadState::new(tweets);
    let mut body = BodyElement::default();
    assert_eq!(body.handle_key_event(plain_key('k'), &state), Ok(None));
    assert_eq!(body.current_list_index(), 0);
    for _ in 0..5 {
        body.handle_key_event(plain_key('j'), &state).unwrap();
    }
    assert_eq!(body.current_list_index(), 2);
    body.handle_key_event(plain_key('k'), &state).unwrap();
    assert_eq!(body.current_list_index(), 1);
    let empty = ReadState::new(vec![]);
    body.move_list_index_down(empty.tweet_count());
    assert_eq!(body.current_list_index(), 0);
}

#[test]
fn read_body_actions_use_the_selected_post() {
    let tweets = vec![simple_tweet(), Tweet { id: "other".to_owned(), liked: false, ..long_tweet() }];
    let state = ReadState::new(tweets.clone());
    let mut body = BodyElement::default();
    body.handle_key_event(plain_key('j'), &state).unwrap();
    assert_eq!(
        body.handle_key_event(plain_key('l'), &state),
        Ok(Some(Action::LikeTweet { tweet_id: "other".to_owned(), was_liked: false }))
    );
    assert_eq!(
        body.handle_key_event(plain_key('r'), &state),
        Ok(Some(Action::RetweetTweet { tweet_id: "other".to_owned() }))
    );
    assert_eq!(body.handle_key_event(plain_key('o'), &state), Ok(Some(Action::OpenTweet(tweets[1].clone()))));
    assert_eq!(
        body.handle_key_event(KeyEvent::new(KeyCode::Char('r'), KeyModifiers::Control), &state),
        Ok(Some(Action::RefreshTweets))
    );
    assert_eq!(body.handle_key_event(plain_key('x'), &state), Ok(None));
    let empty = ReadState::new(vec![]);
    assert_eq!(BodyElement::default().like_action(&empty), None);
    body.reset();
    assert_eq!(body.current_list_index(), 0);
}

#[test]
fn visible_posts_follow_the_selection() {
    let tweets: Vec<Tweet> = (0..10).map(|i| Tweet { id: format!("{i}"), ..simple_tweet() }).collect();
    let state = ReadState::new(tweets.clone());
    let mut body = BodyElement::default();
    for _ in 0..4 {
        body.handle_key_event(plain_key('j'), &state).unwrap();
    }
    // 9 rows hold two posts; the selection (4) is on the last visible row.
    assert_eq!(body.calculate_visible_count_and_scroll_offset(9), (2, 3));
    let widgets = body.create_tweet_widgets(&tweets, 3, 2);
    assert_eq!(widgets.len(), 2);
    assert_eq!(widgets[0].tweet.id, "3");
    assert_eq!(widgets[1].tweet.id, "4");
    // The selection is compared with the place among the visible posts.
    assert_eq!(widgets[0].state, TweetState::Normal);
    assert_eq!(widgets[1].state, TweetState::Normal);
    let top = BodyElement::default().create_tweet_widgets(&tweets, 0, 3);
    assert_eq!(top[0].state, TweetState::Selected);
    assert_eq!(BodyElement::default().create_tweet_widgets(&tweets, 10, 3).len(), 0);
}

#[test]
fn write_body_focus_cycles_and_toggles() {
    let mut body = WriteBody::default();
    let tab = KeyEvent::new(KeyCode::Tab, KeyModifiers::Empty);
    let back = KeyEvent::new(KeyCode::BackTab, KeyModifiers::Empty);
    let space = plain_key(' ');
    assert_eq!(body.handle_key_event(space, ""), WriteKeyOutcome::EditInput);
    assert_eq!(body.handle_key_event(tab, ""), WriteKeyOutcome::Nothing);
    assert_eq!(body.focused_option(), OptionFocus::ShareWithFollowers);
    body.handle_key_event(space, "");
    assert!(!body.options().share_with_followers);
    assert_eq!(body.handle_key_event(plain_key('a'), ""), WriteKeyOutcome::Nothing);
    body.handle_key_event(back, "");
    body.handle_key_event(back, "");
    assert_eq!(body.focused_option(), OptionFocus::Promoted);
    body.handle_key_event(space, "");
    assert!(body.options().nullcast);
    assert_eq!(body.options_color(), Color::Pink);
    assert_eq!(
        body.handle_key_event(KeyEvent::new(KeyCode::Char('s'), KeyModifiers::Control), "my post"),
        WriteKeyOutcome::Submit(Action::CreatePost {
            text: "my post".to_owned(),
            options: CreatePostOptions { share_with_followers: false, paid_partnership: false, nullcast: true },
        })
    );
    let lines = body.draw_options();
    assert_eq!(lines[0].spans[0].content, " [ ] Share with followers");
    assert_eq!(lines[2].spans[0].content, " [x] Promoted");
    assert_eq!(lines[2].style, Style::plain().fg(Color::Blue).bold());
    body.reset();
    assert_eq!(body.focused_option(), OptionFocus::Input);
    assert_eq!(body.options(), CreatePostOptions::default());
    assert!(body.shows_cursor());
    assert_eq!(body.input_color(), Color::Pink);
}
