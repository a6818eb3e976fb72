//! How the collector draws one post.

use vstd::prelude::*;
use vstd::string::StringExecFns;
use vstd::utf8::{decode_utf8, encode_utf8, is_char_boundary};
use chrono::NaiveDateTime;
use crate::modes::read_view::tweet_widget::{MORE_TEXT, lemma_more_text_len, sub_saturating};
use crate::text::{decimal, push_decimal};
use crate::utils::palette::{Alignment, Color, Line, Span, Style, plain_style};

verus! {

/// A post as the collector shows it.
#[derive(Debug, Clone)]
pub struct Tweet {
    pub name: String,
    pub handle: String,
    pub time: NaiveDateTime,
    pub body: String,
    pub replies: u32,
    pub retweets: u32,
    pub likes: u32,
    pub liked: bool,
    pub retweeted: bool,
}

/// `a` and `b` hold the same post: the same texts, time, counters and marks.
pub open spec fn same_post(a: Tweet, b: Tweet) -> bool {
    &&& a.name@ == b.name@
    &&& a.handle@ == b.handle@
    &&& a.time == b.time
    &&& a.body@ == b.body@
    &&& a.replies == b.replies
    &&& a.retweets == b.retweets
    &&& a.likes == b.likes
    &&& a.liked == b.liked
    &&& a.retweeted == b.retweeted
}

/// Whether a post is the selected one.
#[derive(Debug, Clone, Copy, PartialEq, Eq, Structural)]
pub enum TweetState {
    Normal,
    Selected,
}

/// The background of a post in state `s`.
pub open spec fn bg_color_of(s: TweetState) -> Color {
    match s {
        TweetState::Normal => Color::Bg,
        TweetState::Selected => Color::SelectBg,
    }
}

impl TweetState {
    /// The background of a post in this state.
    pub fn get_bg_color(&self) -> (c: Color)
        ensures
            c == bg_color_of(*self),
    {
        match self {
            TweetState::Normal => Color::Bg,
            TweetState::Selected => Color::SelectBg,
        }
    }
}

/// A post with its state in the list.
#[derive(Debug, Clone)]
pub struct TweetWidget {
    pub tweet: Tweet,
    pub state: TweetState,
}

/// The body shown in an area of `max_len` bytes: cut at `max_len` less the
/// length of [`MORE_TEXT`] and one byte, with [`MORE_TEXT`] appended; where
/// the cut would split a character, the whole body with [`MORE_TEXT`]
/// appended.
pub open spec fn collector_body(body: Seq<char>, max_len: int) -> Seq<char> {
    let bytes = encode_utf8(body);
    if bytes.len() <= max_len {
        body
    } else {
        let cutoff = sub_saturating(max_len, (encode_utf8(MORE_TEXT@).len() + 1) as int);
        if is_char_boundary(bytes, cutoff) {
            decode_utf8(bytes.subrange(0, cutoff)) + MORE_TEXT@
        } else {
            body + MORE_TEXT@
        }
    }
}

impl TweetWidget {
    /// The widget of `tweet` in `state`.
    pub fn new(tweet: Tweet, state: TweetState) -> (w: Self)
        ensures
            w.tweet == tweet,
            w.state == state,
    {
        TweetWidget { tweet, state }
    }

    /// The same widget in `new_state`.
    pub fn force_set_state(self, new_state: TweetState) -> (w: Self)
        ensures
            w.tweet == self.tweet,
            w.state == new_state,
    {
        let mut w = self;
        w.state = new_state;
        w
    }

    /// The body as shown in an area of `height` rows and `width` columns.
    pub fn second_zone_body(&self, height: u16, width: u16) -> (r: String)
        requires
            height * width <= u16::MAX,
        ensures
            r@ == collector_body(self.tweet.body@, height * width),
    {
        broadcast use vstd::utf8::encode_utf8_valid_utf8, vstd::utf8::encode_utf8_decode_utf8;
        proof { lemma_more_text_len(); }
        let cuttoff_point: usize = (height * width) as usize;
        let body = self.tweet.body.as_str();
        let body_len = body.as_bytes().len();
        if body_len > cuttoff_point {
            let cutoff = cuttoff_point.saturating_sub(MORE_TEXT.len() + 1);
            if body.is_char_boundary(cutoff) {
                let (kept, _) = body.split_at(cutoff);
                proof {
                    assert(decode_utf8(encode_utf8(kept@)) == kept@);
                }
                let mut r = kept.to_owned();
                r.append(MORE_TEXT);
                r
            } else {
                let mut r = body.to_owned();
                r.append(MORE_TEXT);
                r
            }
        } else {
            body.to_owned()
        }
    }

    /// The row with the counters: replies bold and dimmed, retweets in green,
    /// likes in pink.
    pub fn third_zone(&self) -> (l: Line)
        ensures
            l.spans@.len() == 3,
            l.spans@[0].content@ == "\u{21a9}"@ + decimal(self.tweet.replies as nat),
            l.spans@[0].style == plain_style().bold().fg(Color::TextDim),
            l.spans@[1].content@ == " "@ + decimal(self.tweet.retweets as nat) + " "@,
            l.spans@[1].style == plain_style().not_bold().fg(Color::Green),
            l.spans@[2].content@ == "\u{2665}"@ + decimal(self.tweet.likes as nat),
            l.spans@[2].style == plain_style().not_bold().fg(Color::Pink),
            l.style == plain_style(),
            l.alignment == Alignment::Unset,
    {
        let mut replies = "\u{21a9}".to_owned();
        push_decimal(&mut replies, self.tweet.replies as u64);
        let mut retweets = " ".to_owned();
        push_decimal(&mut retweets, self.tweet.retweets as u64);
        retweets.append(" ");
        let mut likes = "\u{2665}".to_owned();
        push_decimal(&mut likes, self.tweet.likes as u64);
        let mut spans: Vec<Span> = Vec::new();
        spans.push(Span::styled(replies, Style::plain().bold().fg(Color::TextDim)));
        spans.push(Span::styled(retweets, Style::plain().not_bold().fg(Color::Green)));
        spans.push(Span::styled(likes, Style::plain().not_bold().fg(Color::Pink)));
        Line::from_spans(spans)
    }
}

} // verus!
