//! How one post is drawn in the list: its background, and the text of its
//! three rows (author, body, counters).

use vstd::prelude::*;
use vstd::string::StringExecFns;
use vstd::utf8::{decode_utf8, encode_utf8, is_char_boundary};
use crate::api::twitter::models::Tweet;
use crate::text::{decimal, push_decimal};
use crate::utils::palette::{Color, Line, Span, Style, Weight, plain_style};

verus! {

/// What is appended to a body that was cut short.
pub const MORE_TEXT: &'static str = "...more info";

/// The bytes kept free after a cut body, besides the appended text.
pub const SAFE_PADDING: usize = 2;

/// [`MORE_TEXT`] takes twelve bytes.
pub proof fn lemma_more_text_len()
    ensures
        encode_utf8(MORE_TEXT@).len() == 12,
{
    reveal_strlit("...more info");
    assert(vstd::utf8::is_ascii_chars(MORE_TEXT@));
    vstd::utf8::is_ascii_chars_encode_utf8(MORE_TEXT@);
}

/// Whether a post is the selected one.
#[derive(Debug, Clone, Copy, PartialEq, Eq, Structural)]
pub enum TweetState {
    Normal,
    Selected,
}

/// The background of a post in state `s`.
pub open spec fn bg_color_of(s: TweetState) -> Color {
    match s {
        TweetState::Normal => Color::Bg,
        TweetState::Selected => Color::SelectBg,
    }
}

impl TweetState {
    /// The background of a post in this state.
    pub fn get_bg_color(&self) -> (c: Color)
        ensures
            c == bg_color_of(*self),
    {
        match self {
            TweetState::Normal => Color::Bg,
            TweetState::Selected => Color::SelectBg,
        }
    }
}

/// A post together with its state in the list.
#[derive(Debug, Clone)]
pub struct TweetWidget<'a> {
    pub tweet: &'a Tweet,
    pub state: TweetState,
}

/// `a - b`, or 0 when `b` exceeds `a`.
pub open spec fn sub_saturating(a: int, b: int) -> int {
    if a >= b { a - b } else { 0 }
}

/// The body shown in a body area that holds `max_len` bytes. A body that fits
/// is shown whole. A longer one is cut at `max_len` less the length of
/// [`MORE_TEXT`] and [`SAFE_PADDING`] bytes, and [`MORE_TEXT`] is appended;
/// where that cut would split a character, nothing is cut and [`MORE_TEXT`] is
/// appended to the whole body.
pub open spec fn normalized_body(body: Seq<char>, max_len: int) -> Seq<char> {
    let bytes = encode_utf8(body);
    if bytes.len() <= max_len {
        body
    } else {
        let cutoff = sub_saturating(max_len, encode_utf8(MORE_TEXT@).len() + SAFE_PADDING);
        if is_char_boundary(bytes, cutoff) {
            decode_utf8(bytes.subrange(0, cutoff)) + MORE_TEXT@
        } else {
            body + MORE_TEXT@
        }
    }
}

/// The row with the author's name and handle.
pub open spec fn first_zone_text(t: Tweet) -> Seq<Seq<char>> {
    seq![t.name@, " "@ + t.handle@]
}

/// The text of the like counter: a full heart when liked.
pub open spec fn likes_text(t: Tweet) -> Seq<char> {
    (if t.liked { "\u{2665}"@ } else { "\u{2661}"@ }) + decimal(t.likes as nat)
}

/// The text of the retweet marker: a full dot when retweeted.
pub open spec fn retweet_text(t: Tweet) -> Seq<char> {
    if t.retweeted { "\u{25cf}retweeted "@ } else { "\u{25cb}retweeted "@ }
}

/// The colour of the retweet marker.
pub open spec fn retweet_color(t: Tweet) -> Color {
    if t.retweeted { Color::Green } else { Color::TextDim }
}

/// The text of the reply counter.
pub open spec fn replies_text(t: Tweet) -> Seq<char> {
    "\u{21a9}"@ + decimal(t.replies as nat) + " "@
}

impl<'a> TweetWidget<'a> {
    /// The widget of `tweet` in `state`.
    pub fn new(tweet: &'a Tweet, state: TweetState) -> (w: Self)
        ensures
            w.tweet == tweet,
            w.state == state,
    {
        TweetWidget { tweet, state }
    }

    /// The body as shown in an area of `height` rows and `width` columns
    /// (see [`normalized_body`]).
    pub fn normalize_second_zone_body(&self, height: u16, width: u16) -> (r: String)
        requires
            height * width <= u16::MAX,
        ensures
            r@ == normalized_body(self.tweet.body@, height * width),
    {
        broadcast use vstd::utf8::encode_utf8_valid_utf8, vstd::utf8::encode_utf8_decode_utf8;
        proof { lemma_more_text_len(); }
        let max_allowed_len: usize = (height * width) as usize;
        let body = self.tweet.body.as_str();
        let body_len = body.as_bytes().len();
        if body_len > max_allowed_len {
            let cutoff = max_allowed_len.saturating_sub(MORE_TEXT.len() + SAFE_PADDING);
            if body.is_char_boundary(cutoff) {
                let (kept, _) = body.split_at(cutoff);
                proof {
                    assert(decode_utf8(encode_utf8(kept@)) == kept@);
                }
                let mut r = kept.to_owned();
                r.append(MORE_TEXT);
                r
            } else {
                let mut r = body.to_owned();
                r.append(MORE_TEXT);
                r
            }
        } else {
            body.to_owned()
        }
    }

    /// The row with the author: the name in bold, then the handle, dimmed.
    pub fn first_zone(&self) -> (l: Line)
        ensures
            l.spans@.len() == 2,
            l.spans@[0].content@ == self.tweet.name@,
            l.spans@[0].style == plain_style().bold().fg(Color::Text),
            l.spans@[1].content@ == " "@ + self.tweet.handle@,
            l.spans@[1].style == plain_style().not_bold().fg(Color::TextDim),
            l.style == plain_style(),
            l.alignment == crate::utils::palette::Alignment::Unset,
    {
        let mut handle = " ".to_owned();
        handle.append(self.tweet.handle.as_str());
        let mut spans: Vec<Span> = Vec::new();
        spans.push(Span::styled(self.tweet.name.clone(), Style::plain().bold().fg(Color::Text)));
        spans.push(Span::styled(handle, Style::plain().not_bold().fg(Color::TextDim)));
        Line::from_spans(spans)
    }

    /// The row with the counters: replies in blue, the retweet marker, and
    /// the likes in pink.
    pub fn third_zone(&self) -> (l: Line)
        ensures
            l.spans@.len() == 3,
            l.spans@[0].content@ == replies_text(*self.tweet),
            l.spans@[0].style == plain_style().fg(Color::Blue),
            l.spans@[1].content@ == retweet_text(*self.tweet),
            l.spans@[1].style == plain_style().fg(retweet_color(*self.tweet)),
            l.spans@[2].content@ == likes_text(*self.tweet),
            l.spans@[2].style == plain_style().fg(Color::Pink),
            l.style == plain_style(),
            l.alignment == crate::utils::palette::Alignment::Unset,
    {
        let mut liked = if self.tweet.liked { "\u{2665}".to_owned() } else { "\u{2661}".to_owned() };
        push_decimal(&mut liked, self.tweet.likes);
        let (retweet, color) = if self.tweet.retweeted {
            ("\u{25cf}retweeted ", Color::Green)
        } else {
            ("\u{25cb}retweeted ", Color::TextDim)
        };
        let mut replies = "\u{21a9}".to_owned();
        push_decimal(&mut replies, self.tweet.replies);
        replies.append(" ");
        let mut spans: Vec<Span> = Vec::new();
        spans.push(Span::styled(replies, Style::plain().fg(Color::Blue)));
        spans.push(Span::styled(retweet.to_owned(), Style::plain().fg(color)));
        spans.push(Span::styled(liked, Style::plain().fg(Color::Pink)));
        Line::from_spans(spans)
    }
}

/// The encoding of two character sequences one after the other is the
/// encoding of the first followed by that of the second.
pub proof fn lemma_encode_utf8_concat(a: Seq<char>, b: Seq<char>)
    ensures
        encode_utf8(a + b) == encode_utf8(a) + encode_utf8(b),
    decreases a.len(),
{
    if a.len() == 0 {
        assert(a + b =~= b);
        assert(encode_utf8(a) + encode_utf8(b) =~= encode_utf8(b));
    } else {
        lemma_encode_utf8_concat(a.drop_first(), b);
        assert((a + b).drop_first() =~= a.drop_first() + b);
        assert((a + b)[0] == a[0]);
        assert(encode_utf8(a + b) =~= encode_utf8(a) + encode_utf8(b));
    }
}

/// A body that is cut is a beginning of the full body followed by
/// [`MORE_TEXT`], and then takes at most the area's bytes less the safe
/// padding; a body that fits is shown unchanged.
pub proof fn law_cut_body_fits(body: Seq<char>, max_len: int)
    requires
        max_len >= 14,
    ensures
        encode_utf8(body).len() <= max_len ==> normalized_body(body, max_len) == body,
        ({
            let bytes = encode_utf8(body);
            let cutoff = max_len - 14;
            bytes.len() > max_len && is_char_boundary(bytes, cutoff) ==> {
                &&& encode_utf8(normalized_body(body, max_len)).len() == max_len - SAFE_PADDING
                &&& exists|prefix: Seq<char>| body == prefix + #[trigger] decode_utf8(bytes.subrange(cutoff, bytes.len() as int))
                    && normalized_body(body, max_len) == prefix + MORE_TEXT@
            }
        }),
{
    broadcast use vstd::utf8::encode_utf8_valid_utf8, vstd::utf8::encode_utf8_decode_utf8, vstd::utf8::decode_utf8_encode_utf8;
    lemma_more_text_len();
    let bytes = encode_utf8(body);
    let cutoff = max_len - 14;
    if bytes.len() > max_len && is_char_boundary(bytes, cutoff) {
        let prefix = decode_utf8(bytes.subrange(0, cutoff));
        vstd::utf8::valid_utf8_split(bytes, cutoff);
        vstd::utf8::decode_utf8_split(bytes, cutoff);
        assert(decode_utf8(bytes) == body);
        lemma_encode_utf8_concat(prefix, MORE_TEXT@);
        assert(encode_utf8(prefix) == bytes.subrange(0, cutoff));
        assert(body == prefix + decode_utf8(bytes.subrange(cutoff, bytes.len() as int)));
    }
}

/// The like counter starts with a full heart exactly when the post is liked
/// and with an empty heart exactly when it is not; the likes follow in
/// decimal.
pub proof fn law_heart_shows_liked(t: Tweet)
    ensures
        likes_text(t).len() == 1 + decimal(t.likes as nat).len(),
        (likes_text(t)[0] == '\u{2665}') == t.liked,
        (likes_text(t)[0] == '\u{2661}') == !t.liked,
        likes_text(t).drop_first() == decimal(t.likes as nat),
{
    reveal_strlit("\u{2665}");
    reveal_strlit("\u{2661}");
    let heart = if t.liked { "\u{2665}"@ } else { "\u{2661}"@ };
    assert(likes_text(t) == heart + decimal(t.likes as nat));
    assert((heart + decimal(t.likes as nat)).drop_first() =~= decimal(t.likes as nat));
}

} // verus!
