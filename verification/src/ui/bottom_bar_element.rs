//! The bottom bar: the keyboard shortcuts of the current mode, four to a row.

use vstd::prelude::*;
use vstd::string::StringExecFns;
use crate::state::app_state::Mode;
use crate::utils::palette::{Alignment, Color, Line, Span, Style, plain_style};

verus! {

/// How many shortcuts share one row.
pub const ROW_LIMIT: usize = 4;

/// The shortcuts of read mode, as (key, what it does).
pub open spec fn read_shortcuts() -> Seq<(Seq<char>, Seq<char>)> {
    seq![
        ("j/k"@, "scroll"@),
        ("r"@, "retweet"@),
        ("l"@, "like/unlike"@),
        ("Ctrl+w"@, "new post"@),
        ("Ctrl+r"@, "refresh data"@),
        ("o"@, "open"@),
        ("Ctrl+x"@, "exit"@),
    ]
}

/// The shortcuts of write mode, as (key, what it does).
pub open spec fn write_shortcuts() -> Seq<(Seq<char>, Seq<char>)> {
    seq![
        ("Tab"@, "focus option"@),
        ("Space"@, "toggle option"@),
        ("Ctrl+s"@, "send"@),
        ("Ctrl+w"@, "cancel"@),
        ("Ctrl+x"@, "exit"@),
    ]
}

/// The shortcuts of read mode.
pub fn shortcuts_read_mode() -> (v: Vec<(&'static str, &'static str)>)
    ensures
        v@.len() == read_shortcuts().len(),
        forall|i: int| 0 <= i < v@.len() ==> (#[trigger] v@[i].0@, v@[i].1@) == read_shortcuts()[i],
{
    let mut v: Vec<(&'static str, &'static str)> = Vec::new();
    v.push(("j/k", "scroll"));
    v.push(("r", "retweet"));
    v.push(("l", "like/unlike"));
    v.push(("Ctrl+w", "new post"));
    v.push(("Ctrl+r", "refresh data"));
    v.push(("o", "open"));
    v.push(("Ctrl+x", "exit"));
    v
}

/// The shortcuts of write mode.
pub fn shortcuts_write_mode() -> (v: Vec<(&'static str, &'static str)>)
    ensures
        v@.len() == write_shortcuts().len(),
        forall|i: int| 0 <= i < v@.len() ==> (#[trigger] v@[i].0@, v@[i].1@) == write_shortcuts()[i],
{
    let mut v: Vec<(&'static str, &'static str)> = Vec::new();
    v.push(("Tab", "focus option"));
    v.push(("Space", "toggle option"));
    v.push(("Ctrl+s", "send"));
    v.push(("Ctrl+w", "cancel"));
    v.push(("Ctrl+x", "exit"));
    v
}

/// The style of a shortcut's key.
pub open spec fn key_style() -> Style {
    plain_style().fg(Color::TextDim).bg(Color::Border).bold()
}

/// The style of what a shortcut does.
pub open spec fn action_style() -> Style {
    plain_style().fg(Color::TextMute)
}

/// `spans` show the shortcuts `chunk`: a plain space, then for each shortcut
/// its key, padded and highlighted, and what it does, padded and muted.
pub open spec fn spans_show_chunk(spans: Seq<Span>, chunk: Seq<(Seq<char>, Seq<char>)>) -> bool {
    &&& spans.len() == 1 + 2 * chunk.len()
    &&& spans[0].content@ == " "@
    &&& spans[0].style == plain_style()
    &&& forall|i: int| 0 <= i < chunk.len() ==> {
        &&& (#[trigger] spans[1 + 2 * i]).content@ == " "@ + chunk[i].0 + " "@
        &&& spans[1 + 2 * i].style == key_style()
        &&& spans[2 + 2 * i].content@ == " "@ + chunk[i].1 + " "@
        &&& spans[2 + 2 * i].style == action_style()
    }
}

/// The number of rows for `n` shortcuts.
pub open spec fn row_count(n: nat) -> nat {
    (n + ROW_LIMIT - 1) as nat / (ROW_LIMIT as nat)
}

/// The shortcuts of row `i`: the `i`-th group of [`ROW_LIMIT`].
pub open spec fn row_chunk(shortcuts: Seq<(Seq<char>, Seq<char>)>, i: int) -> Seq<(Seq<char>, Seq<char>)> {
    let end = if (i + 1) * ROW_LIMIT <= shortcuts.len() { (i + 1) * ROW_LIMIT } else { shortcuts.len() as int };
    shortcuts.subrange(i * ROW_LIMIT, end)
}

/// The bottom bar of one mode.
pub struct BottomBarElement {
    lines: Vec<Line>,
}

impl View for BottomBarElement {
    type V = Seq<Line>;

    closed spec fn view(&self) -> Seq<Line> {
        self.lines@
    }
}

/// The (key, action) pairs of a slice of shortcuts, as character sequences.
pub open spec fn shortcut_views(s: Seq<(&str, &str)>) -> Seq<(Seq<char>, Seq<char>)> {
    s.map_values(|p: (&str, &str)| (p.0@, p.1@))
}

fn padded(s: &str) -> (r: String)
    ensures
        r@ == " "@ + s@ + " "@,
{
    let mut r = " ".to_owned();
    r.append(s);
    r.append(" ");
    r
}

impl BottomBarElement {
    /// The bottom bar of `mode`.
    pub fn new(mode: Mode) -> (b: Self)
        ensures
            b@.len() == 2,
            forall|i: int| 0 <= i < b@.len() ==> {
                &&& spans_show_chunk(
                    (#[trigger] b@[i]).spans@,
                    row_chunk(if mode == Mode::Read { read_shortcuts() } else { write_shortcuts() }, i),
                )
                &&& b@[i].style == plain_style().bg(Color::Surface)
                &&& b@[i].alignment == Alignment::Left
            },
    {
        let shortcuts = match mode {
            Mode::Read => shortcuts_read_mode(),
            Mode::Write => shortcuts_write_mode(),
        };
        proof {
            let expected = if mode == Mode::Read { read_shortcuts() } else { write_shortcuts() };
            assert(shortcut_views(shortcuts@) =~= expected);
        }
        let lines = Self::create_lines(shortcuts.as_slice());
        BottomBarElement { lines }
    }

    /// The rows of the bar.
    pub fn lines(&self) -> (l: &Vec<Line>)
        ensures
            l@ == self@,
    {
        &self.lines
    }

    /// The spans that show the shortcuts `chunk`.
    pub fn create_spans_from_chunk(chunk: &[(&str, &str)]) -> (spans: Vec<Span>)
        ensures
            spans_show_chunk(spans@, shortcut_views(chunk@)),
    {
        let mut spans: Vec<Span> = Vec::new();
        spans.push(Span::raw(" ".to_owned()));
        let n = chunk.len();
        let mut i: usize = 0;
        while i < n
            invariant
                n == chunk@.len(),
                0 <= i <= n,
                spans_show_chunk(spans@, shortcut_views(chunk@.take(i as int))),
            decreases n - i,
        {
            let (key, action) = chunk[i];
            spans.push(Span::styled(padded(key), Style::plain().fg(Color::TextDim).bg(Color::Border).bold()));
            spans.push(Span::styled(padded(action), Style::plain().fg(Color::TextMute)));
            proof {
                let prev = shortcut_views(chunk@.take(i as int));
                let next = shortcut_views(chunk@.take(i + 1));
                assert(next =~= prev.push((key@, action@)));
                assert forall|j: int| 0 <= j < next.len() implies {
                    &&& (#[trigger] spans@[1 + 2 * j]).content@ == " "@ + next[j].0 + " "@
                    &&& spans@[1 + 2 * j].style == key_style()
                    &&& spans@[2 + 2 * j].content@ == " "@ + next[j].1 + " "@
                    &&& spans@[2 + 2 * j].style == action_style()
                } by {
                    if j < i {
                        assert(next[j] == prev[j]);
                    }
                }
            }
            i = i + 1;
        }
        proof {
            assert(chunk@.take(n as int) =~= chunk@);
        }
        spans
    }

    /// The rows that show `shortcuts`, [`ROW_LIMIT`] to a row, on the surface
    /// colour and aligned left.
    pub fn create_lines(shortcuts: &[(&str, &str)]) -> (lines: Vec<Line>)
        ensures
            lines@.len() == row_count(shortcuts@.len()),
            forall|i: int| 0 <= i < lines@.len() ==> {
                &&& spans_show_chunk((#[trigger] lines@[i]).spans@, row_chunk(shortcut_views(shortcuts@), i))
                &&& lines@[i].style == plain_style().bg(Color::Surface)
                &&& lines@[i].alignment == Alignment::Left
            },
    {
        let n = shortcuts.len();
        let mut lines: Vec<Line> = Vec::new();
        let mut start: usize = 0;
        while start < n
            invariant
                n == shortcuts@.len(),
                start <= n,
                start < n ==> start == lines@.len() * ROW_LIMIT,
                lines@.len() == row_count(start as nat),
                forall|i: int| 0 <= i < lines@.len() ==> {
                    &&& spans_show_chunk((#[trigger] lines@[i]).spans@, row_chunk(shortcut_views(shortcuts@), i))
                    &&& lines@[i].style == plain_style().bg(Color::Surface)
                    &&& lines@[i].alignment == Alignment::Left
                },
            decreases n - start,
        {
            let end = if n - start > ROW_LIMIT { start + ROW_LIMIT } else { n };
            let chunk = vstd::slice::slice_subrange(shortcuts, start, end);
            let spans = Self::create_spans_from_chunk(chunk);
            let ghost k = lines@.len() as int;
            let ghost old_lines = lines@;
            proof {
                assert(shortcut_views(chunk@) =~= row_chunk(shortcut_views(shortcuts@), k));
            }
            lines.push(Line { spans, style: Style::plain().bg(Color::Surface), alignment: Alignment::Left });
            proof {
                assert forall|i: int| 0 <= i < lines@.len() implies {
                    &&& spans_show_chunk((#[trigger] lines@[i]).spans@, row_chunk(shortcut_views(shortcuts@), i))
                    &&& lines@[i].style == plain_style().bg(Color::Surface)
                    &&& lines@[i].alignment == Alignment::Left
                } by {
                    if i < k {
                        assert(lines@[i] == old_lines[i]);
                    }
                }
            }
            proof {
                if end < n {
                    assert(end == (k + 1) * 4);
                    assert((end + 3) / 4 == k + 1);
                } else {
                    assert(k * 4 < end <= k * 4 + 4);
                    assert((end + 3) / 4 == k + 1);
                }
            }
            start = end;
        }
        lines
    }
}

/// The rows show every shortcut once, in order: shortcut `j` is the
/// `j % 4`-th of row `j / 4`, and every row holds at most [`ROW_LIMIT`].
pub proof fn law_rows_cover_shortcuts(shortcuts: Seq<(Seq<char>, Seq<char>)>)
    ensures
        forall|j: int| 0 <= j < shortcuts.len() ==> {
            &&& j / 4 < row_count(shortcuts.len())
            &&& j % 4 < row_chunk(shortcuts, j / 4).len()
            &&& #[trigger] row_chunk(shortcuts, j / 4)[j % 4] == shortcuts[j]
        },
        forall|i: int| 0 <= i < row_count(shortcuts.len()) ==> 0 < (#[trigger] row_chunk(shortcuts, i)).len() <= ROW_LIMIT,
{
    assert forall|j: int| 0 <= j < shortcuts.len() implies {
        &&& j / 4 < row_count(shortcuts.len())
        &&& j % 4 < row_chunk(shortcuts, j / 4).len()
        &&& #[trigger] row_chunk(shortcuts, j / 4)[j % 4] == shortcuts[j]
    } by {
        let i = j / 4;
        assert(i * 4 <= j < i * 4 + 4);
    }
}

} // verus!
