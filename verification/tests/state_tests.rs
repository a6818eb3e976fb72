use chrono::NaiveDateTime;
use twitter_tui::api::twitter::models::{CreatePostOptions, Tweet, UserInfo};
use twitter_tui::state::action::{Action, ActionOutcome, ActionStep, ApiReply, ApiRequest, AppEvent};
use twitter_tui::state::app_state::{AppState, Mode, StatusMessage};
use twitter_tui::state::element_state::ElementState;
use twitter_tui::state::read_state::ReadState;
use twitter_tui::state::write_state::WriteState;
use twitter_tui::utils::application_error::ApplicationError;

fn tweet(id: &str, liked: bool, likes: u64, retweeted: bool) -> Tweet {
    Tweet {
        id: id.to_owned(),
        name: format!("name_{id}"),
        handle: format!("handle_{id}"),
        time: NaiveDateTime::default(),
        body: format!("body_{id}"),
        replies: 100,
        retweets: 100,
        likes,
        liked,
        retweeted,
    }
}

fn tweets() -> Vec<Tweet> {
    vec![
        tweet("test_id1", true, 100, false),
        tweet("test_id2", true, 100, false),
        tweet("test_id3", true, 100, false),
    ]
}

fn app_state() -> AppState {
    AppState::new(
        UserInfo { id: String::from("test-user-id"), username: String::from("test-user") },
        vec![],
    )
}

#[test]
fn toggle_mode_should_switch_between_read_and_write() {
    let mut sut = app_state();

    sut.toggle_mode();
    let mode_after_first_toggle = *sut.mode();

    sut.toggle_mode();
    let mode_after_second_toggle = *sut.mode();

    assert_eq!(mode_after_first_toggle, Mode::Write);
    assert_eq!(mode_after_second_toggle, Mode::Read);
}

#[test]
fn mode_should_return_the_expected_mode() {
    let sut = app_state();
    let mode = sut.mode();
    assert_eq!(mode, &Mode::Read);
}

#[test]
fn user_id_should_return_the_expected_user_id() {
    let sut = app_state();
    let user_id = sut.user_id();
    assert_eq!(user_id, "test-user-id");
}

#[test]
fn username_should_return_the_expected_username() {
    let sut = app_state();
    let username = sut.username();
    assert_eq!(username, "test-user");
}

#[test]
fn read_state_should_return_the_expected_read_state() {
    let sut = app_state();
    let read_state = sut.read_state();
    assert_eq!(*read_state, ReadState::new(vec![]));
}

#[test]
fn write_state_should_return_the_expected_write_state() {
    let sut = app_state();
    let write_state = sut.write_state();
    assert_eq!(*write_state, WriteState::default());
}

#[test]
fn show_status_message_should_update_read_and_write_states() {
    let mut sut = app_state();
    sut.show_status_message(StatusMessage::Liked);
    assert_eq!(sut.read_state().status_message(), Some(&StatusMessage::Liked));
    assert_eq!(sut.write_state().status_message(), Some(&StatusMessage::Liked));
}

#[test]
fn mode_names_are_read_and_write() {
    assert_eq!(Mode::Read.name(), "read");
    assert_eq!(Mode::Write.name(), "write");
}

#[test]
fn tweets_should_return_correct_result() {
    let sut = ReadState::new(tweets());
    assert_eq!(sut.tweets(), tweets().as_slice());
}

#[test]
fn tweet_count_should_return_correct_count() {
    let sut = ReadState::new(tweets());
    assert_eq!(sut.tweet_count(), 3);
}

#[test]
fn tweet_should_return_some_for_valid_index_else_none() {
    let sut = ReadState::new(tweets());
    for (index, has_data) in [(0, true), (1, true), (2, true), (3, false), (100, false)] {
        assert_eq!(sut.tweet(index).is_some(), has_data);
    }
    assert_eq!(sut.tweet(1), Some(&tweets()[1]));
}

#[test]
fn tweet_index_by_id_finds_the_first_post_with_that_id() {
    let mut list = tweets();
    list.push(tweet("test_id2", false, 5, false));
    let sut = ReadState::new(list);
    assert_eq!(sut.tweet_index_by_id("test_id1"), Some(0));
    assert_eq!(sut.tweet_index_by_id("test_id2"), Some(1));
    assert_eq!(sut.tweet_index_by_id("test_id3"), Some(2));
    assert_eq!(sut.tweet_index_by_id("i am an invalid id"), None);
}

#[test]
fn status_message_should_be_set_and_retrieved_correctly() {
    for status_message in [Some(StatusMessage::Liked), None] {
        let mut read = ReadState::new(tweets());
        read.set_status_message(status_message.clone());
        assert_eq!(read.status_message(), status_message.as_ref());

        let mut write = WriteState::default();
        write.set_status_message(status_message.clone());
        assert_eq!(write.status_message(), status_message.as_ref());
    }
}

#[test]
fn reset_status_message_clears_only_the_message() {
    let mut read = ReadState::new(tweets());
    read.set_status_message(Some(StatusMessage::Retweeted));
    read.reset_status_message();
    assert_eq!(read.status_message(), None);
    assert_eq!(read.tweet_count(), 3);

    let mut write = WriteState::default();
    write.set_status_message(Some(StatusMessage::NewPostAdded));
    write.reset_status_message();
    assert_eq!(write.status_message(), None);
}

#[test]
fn process_events_clears_the_messages_of_the_named_views() {
    let mut sut = app_state();
    sut.show_status_message(StatusMessage::Liked);
    sut.process_events(vec![AppEvent::ResetReadState]);
    assert_eq!(sut.read_state().status_message(), None);
    assert_eq!(sut.write_state().status_message(), Some(&StatusMessage::Liked));
    sut.process_events(vec![AppEvent::ResetWriteState, AppEvent::ResetReadState]);
    assert_eq!(sut.write_state().status_message(), None);
}

#[test]
fn switch_mode_and_quit_finish_without_outside_work() {
    let mut sut = app_state();
    assert_eq!(sut.handle_action(Action::SwitchMode), ActionStep::Finished(ActionOutcome::ResetWriteView));
    assert_eq!(*sut.mode(), Mode::Write);
    assert_eq!(sut.handle_action(Action::SwitchMode), ActionStep::Finished(ActionOutcome::ResetWriteView));
    assert_eq!(*sut.mode(), Mode::Read);
    assert_eq!(sut.handle_action(Action::Quit), ActionStep::Finished(ActionOutcome::Quit));
}

#[test]
fn refresh_asks_for_the_posts_of_the_user_and_replaces_them() {
    let mut sut = app_state();
    sut.show_status_message(StatusMessage::Liked);
    let step = sut.handle_action(Action::RefreshTweets);
    let request = ApiRequest::FetchPosts { user_id: String::from("test-user-id") };
    assert_eq!(step, ActionStep::Perform(request.clone()));
    let outcome = sut.complete_action(request, ApiReply::Posts(tweets()));
    assert_eq!(outcome, Ok(ActionOutcome::ResetReadView));
    assert_eq!(*sut.read_state(), ReadState::new(tweets()));
}

#[test]
fn like_then_unlike_restores_the_counter() {
    let mut sut = AppState::new(
        UserInfo { id: String::from("u"), username: String::from("user") },
        vec![tweet("a", false, 7, false), tweet("b", false, 1, false)],
    );
    let step = sut.handle_action(Action::LikeTweet { tweet_id: String::from("a"), was_liked: false });
    let request = ApiRequest::LikePost { tweet_id: String::from("a"), user_id: String::from("u") };
    assert_eq!(step, ActionStep::Perform(request.clone()));
    assert_eq!(sut.complete_action(request, ApiReply::Done), Ok(ActionOutcome::DelayedResetView));
    let liked = sut.read_state().tweet(0).unwrap();
    assert!(liked.liked);
    assert_eq!(liked.likes, 8);
    assert_eq!(sut.read_state().status_message(), Some(&StatusMessage::Liked));

    let step = sut.handle_action(Action::LikeTweet { tweet_id: String::from("a"), was_liked: true });
    let request = ApiRequest::UnlikePost { tweet_id: String::from("a"), user_id: String::from("u") };
    assert_eq!(step, ActionStep::Perform(request.clone()));
    assert_eq!(sut.complete_action(request, ApiReply::Done), Ok(ActionOutcome::DelayedResetView));
    assert_eq!(sut.read_state().tweet(0), Some(&tweet("a", false, 7, false)));
    assert_eq!(sut.write_state().status_message(), Some(&StatusMessage::Unliked));
}

#[test]
fn like_counters_saturate() {
    let mut sut = AppState::new(
        UserInfo { id: String::from("u"), username: String::from("user") },
        vec![tweet("max", false, u64::MAX, false), tweet("zero", true, 0, false)],
    );
    let like = ApiRequest::LikePost { tweet_id: String::from("max"), user_id: String::from("u") };
    sut.complete_action(like, ApiReply::Done).unwrap();
    assert_eq!(sut.read_state().tweet(0).unwrap().likes, u64::MAX);
    let unlike = ApiRequest::UnlikePost { tweet_id: String::from("zero"), user_id: String::from("u") };
    sut.complete_action(unlike, ApiReply::Done).unwrap();
    assert_eq!(sut.read_state().tweet(1).unwrap().likes, 0);
    assert!(!sut.read_state().tweet(1).unwrap().liked);
}

#[test]
fn retweet_is_asked_once() {
    let mut sut = AppState::new(
        UserInfo { id: String::from("u"), username: String::from("user") },
        vec![tweet("a", false, 7, false)],
    );
    let step = sut.handle_action(Action::RetweetTweet { tweet_id: String::from("a") });
    let request = ApiRequest::RetweetPost { tweet_id: String::from("a"), user_id: String::from("u") };
    assert_eq!(step, ActionStep::Perform(request.clone()));
    assert_eq!(sut.complete_action(request, ApiReply::Done), Ok(ActionOutcome::DelayedResetView));
    assert!(sut.read_state().tweet(0).unwrap().retweeted);
    assert_eq!(sut.read_state().status_message(), Some(&StatusMessage::Retweeted));

    let again = sut.handle_action(Action::RetweetTweet { tweet_id: String::from("a") });
    assert_eq!(again, ActionStep::Finished(ActionOutcome::DelayedResetView));
    assert_eq!(sut.read_state().status_message(), Some(&StatusMessage::AlreadyRetweeted));
}

#[test]
fn created_post_shows_confirmation_and_leaves_write_mode() {
    let mut sut = app_state();
    sut.toggle_mode();
    let options = CreatePostOptions { share_with_followers: false, paid_partnership: true, nullcast: false };
    let step = sut.handle_action(Action::CreatePost { text: String::from("hello"), options });
    let request = ApiRequest::CreatePost { text: String::from("hello"), options };
    assert_eq!(step, ActionStep::Perform(request.clone()));
    assert_eq!(sut.complete_action(request, ApiReply::Done), Ok(ActionOutcome::DelayedResetView));
    assert_eq!(*sut.mode(), Mode::Read);
    assert_eq!(sut.write_state().status_message(), Some(&StatusMessage::NewPostAdded));
}

#[test]
fn failures_are_returned_and_change_nothing_except_for_opening() {
    let mut sut = app_state();
    let error = ApplicationError::XApiForbiddenError(String::from("nope"));
    let request = ApiRequest::CreatePost { text: String::from("x"), options: CreatePostOptions::default() };
    assert_eq!(sut.complete_action(request, ApiReply::Failed(error.clone())), Err(error.clone()));
    assert_eq!(*sut.mode(), Mode::Read);
    assert_eq!(sut.write_state().status_message(), None);

    let open = sut.handle_action(Action::OpenTweet(tweet("a", false, 1, false)));
    assert_eq!(open, ActionStep::Perform(ApiRequest::OpenTweet(tweet("a", false, 1, false))));
    let outcome = sut.complete_action(ApiRequest::OpenTweet(tweet("a", false, 1, false)), ApiReply::Failed(error));
    assert_eq!(outcome, Ok(ActionOutcome::Nothing));
}

#[test]
fn default_post_options_share_with_followers_only() {
    assert_eq!(
        CreatePostOptions::default(),
        CreatePostOptions { share_with_followers: true, paid_partnership: false, nullcast: false }
    );
}
