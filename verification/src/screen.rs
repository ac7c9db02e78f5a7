//! The repaint: the whole screen as one text, drawn anew each time.

use crate::editor::{Editor, EditorState};
use crate::status::Nanos;
use crate::tabs::{expand, spaces};
use crate::text::{decimal, push_decimal, push_spaces};
use vstd::prelude::*;
use vstd::string::{StrSliceExecFns, StringExecFns};

verus! {

/// The version that the welcome banner shows.
pub const VERSION: &'static str = "0.1.0";

/// `name` as the status bar shows it: quoted as a string literal of the
/// language, between double quotes and with the characters that cannot stand
/// for themselves there written as escapes.
pub uninterp spec fn quoted(name: Seq<char>) -> Seq<char>;

/// `format!` of the standard library on `name`, with `{:<20?}`: the `Debug`
/// form of the string, which is the string quoted as a string literal. The
/// contract gives the result its name and claims no more of it.
#[verifier::external_body]
fn quote(name: &str) -> (text: String)
    ensures
        text@ == quoted(name@),
{
    format!("{:<20?}", name)
}

/// The part of `line` that a window shows which begins at column `coloff`
/// and is `cols` columns wide.
pub open spec fn trimmed(line: Seq<char>, coloff: nat, cols: nat) -> Seq<char> {
    if line.len() <= coloff {
        Seq::empty()
    } else if line.len() - coloff > cols {
        line.subrange(coloff as int, (coloff + cols) as int)
    } else {
        line.subrange(coloff as int, line.len() as int)
    }
}

/// The first `cols` characters of `line`, or all of it if it has fewer.
pub open spec fn cut(line: Seq<char>, cols: nat) -> Seq<char> {
    if line.len() > cols {
        line.take(cols as int)
    } else {
        line
    }
}

/// The banner that greets the user of an empty buffer.
pub open spec fn banner() -> Seq<char> {
    "Rustitor editor -- version "@ + VERSION@
}

/// The name that the status bar shows for a buffer without a file.
pub open spec fn no_name() -> Seq<char> {
    "\"[No Name]\""@
}

/// The left part of the status bar: the file's name as `label`, the number
/// of rows, and a mark if the buffer has unsaved changes.
pub open spec fn status_left(label: Seq<char>, rows: nat, dirty: bool) -> Seq<char> {
    label + " - "@ + decimal(rows) + " lines "@ + (if dirty {
        "(modified) "@
    } else {
        Seq::empty()
    })
}

/// The right part of the status bar: the cursor's row and the number of
/// rows.
pub open spec fn status_right(cy: nat, rows: nat) -> Seq<char> {
    decimal(cy) + seq!['/'] + decimal(rows)
}

/// The status bar of a window `cols` columns wide, in inverse video: the
/// left part, cut to the window, then the right part at the window's right
/// edge if there is room for it, and spaces in between.
pub open spec fn status_text(
    label: Seq<char>,
    rows: nat,
    cy: nat,
    dirty: bool,
    cols: nat,
) -> Seq<char> {
    let left = cut(status_left(label, rows, dirty), cols);
    let right = status_right(cy, rows);
    let rest = (cols - left.len()) as nat;
    "\x1b[7m"@ + left + (if right.len() <= rest {
        spaces((rest - right.len()) as nat) + right
    } else {
        spaces(rest)
    }) + "\x1b[m"@ + "\r\n"@
}

/// The sequence that puts the terminal's cursor at `row` and `col`, both
/// counted from 1.
pub open spec fn cursor_to(row: nat, col: nat) -> Seq<char> {
    "\x1b["@ + decimal(row) + seq![';'] + decimal(col) + seq!['H']
}

/// The sequence that clears the screen and puts the cursor at its top left.
pub open spec fn clear_text() -> Seq<char> {
    "\x1b[2J"@ + "\x1b[H"@
}

impl EditorState {
    /// The row of the welcome banner: the banner in the middle of the
    /// window, after a tilde at the left edge.
    pub open spec fn welcome(self) -> Seq<char> {
        let text = trimmed(banner(), self.coloff, self.screen_cols);
        let padding = (self.screen_cols - text.len()) / 2;
        if padding > 0 {
            "~"@ + spaces((padding - 1) as nat) + text
        } else {
            text
        }
    }

    /// Row `y` of the window: the part of the buffer's row that the window
    /// shows; past the end of the buffer a tilde, or, a third of the way
    /// down an empty buffer, the welcome banner. The rest of the line is
    /// cleared.
    pub open spec fn screen_row(self, y: nat) -> Seq<char> {
        let file_row = y + self.rowoff;
        (if file_row >= self.row_count() {
            if self.row_count() == 0 && y == self.screen_rows / 3 {
                self.welcome()
            } else {
                "~"@
            }
        } else {
            trimmed(expand(self.doc.lines[file_row as int]), self.coloff, self.screen_cols)
        }) + "\x1b[K"@ + "\r\n"@
    }

    /// The first `n` rows of the window.
    pub open spec fn screen_rows_upto(self, n: nat) -> Seq<char>
        decreases n,
    {
        if n == 0 {
            Seq::empty()
        } else {
            self.screen_rows_upto((n - 1) as nat) + self.screen_row((n - 1) as nat)
        }
    }

    /// All the rows of the window.
    pub open spec fn body(self) -> Seq<char> {
        self.screen_rows_upto(self.screen_rows)
    }

    /// The file's name as the status bar shows it.
    pub open spec fn label(self) -> Seq<char> {
        match self.file {
            Some(file) => quoted(file.display),
            None => no_name(),
        }
    }

    /// The status bar.
    pub open spec fn status_bar(self) -> Seq<char> {
        status_text(self.label(), self.row_count(), self.cy, self.doc.dirty, self.screen_cols)
    }

    /// The message bar at the time `now`: the message, cut to the window,
    /// while it is to be shown; then the rest of the line is cleared.
    pub open spec fn message_bar(self, now: Nanos) -> Seq<char> {
        (if self.message.visible_at(now) {
            cut(self.message.text, self.screen_cols)
        } else {
            Seq::empty()
        }) + "\x1b[K"@
    }

    /// The whole screen at the time `now`: with the cursor hidden, from the
    /// top left, the rows of the window, the status bar and the message bar;
    /// then the cursor is put where it stands in the window, and shown.
    pub open spec fn frame(self, now: Nanos) -> Seq<char> {
        "\x1b[?25l"@ + "\x1b[H"@ + self.body() + self.status_bar() + self.message_bar(now)
            + cursor_to((self.cy - self.rowoff + 1) as nat, (self.rx - self.coloff + 1) as nat)
            + "\x1b[?25h"@
    }
}

/// The bounds of the part of a line of `len` columns that a window shows
/// which begins at column `coloff` and is `cols` columns wide.
fn window(len: usize, coloff: usize, cols: usize) -> (bounds: (usize, usize))
    ensures
        bounds.0 <= bounds.1 <= len,
        forall|line: Seq<char>|
            line.len() == len ==> #[trigger] trimmed(line, coloff as nat, cols as nat)
                == line.subrange(bounds.0 as int, bounds.1 as int),
{
    if len <= coloff {
        (0, 0)
    } else if len - coloff > cols {
        (coloff, coloff + cols)
    } else {
        (coloff, len)
    }
}

/// Adds the first `cols` characters of `text`, or all of it if it has fewer,
/// at the end of `out`.
fn push_cut(out: &mut String, text: &str, cols: usize)
    ensures
        final(out)@ == old(out)@ + cut(text@, cols as nat),
{
    let len = text.unicode_len();
    if len > cols {
        out.append(text.substring_char(0, cols));
    } else {
        out.append(text);
    }
}

/// The left part of the status bar.
fn left_text(label: &str, rows: usize, dirty: bool) -> (left: String)
    ensures
        left@ == status_left(label@, rows as nat, dirty),
{
    let mut left = String::from_str(label);
    left.append(" - ");
    push_decimal(&mut left, rows);
    left.append(" lines ");
    let ghost head = left@;
    if dirty {
        left.append("(modified) ");
    } else {
        assert(head + Seq::<char>::empty() == head);
    }
    left
}

/// The right part of the status bar.
fn right_text(cy: usize, rows: usize) -> (right: String)
    ensures
        right@ == status_right(cy as nat, rows as nat),
{
    let mut right = String::new();
    push_decimal(&mut right, cy);
    assert(right@ == decimal(cy as nat));
    right.push('/');
    assert(right@ == decimal(cy as nat) + seq!['/']);
    push_decimal(&mut right, rows);
    right
}

/// Adds the status bar of a window `cols` columns wide at the end of `out`.
/// `label` is the file's name as the bar shows it, `rows` the number of rows
/// of the buffer, `cy` the cursor's row, and `dirty` tells whether the
/// buffer has unsaved changes.
pub fn push_status(
    out: &mut String,
    label: &str,
    rows: usize,
    cy: usize,
    dirty: bool,
    cols: usize,
)
    ensures
        final(out)@ == old(out)@ + status_text(label@, rows as nat, cy as nat, dirty, cols as nat),
{
    let left = left_text(label, rows, dirty);
    let right = right_text(cy, rows);
    let left_len = left.as_str().unicode_len();
    let shown: usize = if left_len > cols {
        cols
    } else {
        left_len
    };
    let rest: usize = cols - shown;
    let right_len = right.as_str().unicode_len();
    let ghost before = out@;
    let ghost shown_left = cut(left@, cols as nat);
    let ghost gap = if right@.len() <= rest {
        spaces((rest - right@.len()) as nat) + right@
    } else {
        spaces(rest as nat)
    };
    out.append("\x1b[7m");
    push_cut(out, left.as_str(), cols);
    assert(out@ == before + ("\x1b[7m"@ + shown_left));
    if right_len <= rest {
        push_spaces(out, rest - right_len);
        out.append(right.as_str());
    } else {
        push_spaces(out, rest);
    }
    assert(out@ == before + ("\x1b[7m"@ + shown_left + gap));
    out.append("\x1b[m");
    out.append("\r\n");
    assert(out@ == before + ("\x1b[7m"@ + shown_left + gap + "\x1b[m"@ + "\r\n"@));
}

impl Editor {
    /// The part of `line` that the window shows, by its columns.
    pub fn trim_line<'a>(&self, line: &'a str) -> (part: &'a str)
        ensures
            part@ == trimmed(line@, self@.coloff, self@.screen_cols),
    {
        let (coloff, _) = self.offsets();
        let (cols, _) = self.screen_size();
        let (from, to) = window(line.unicode_len(), coloff, cols);
        line.substring_char(from, to)
    }

    /// Adds the row of the welcome banner at the end of `out`.
    fn draw_welcome(&self, out: &mut String)
        ensures
            final(out)@ == old(out)@ + self@.welcome(),
    {
        let mut text = String::from_str("Rustitor editor -- version ");
        text.append(VERSION);
        let welcome = self.trim_line(text.as_str());
        let (cols, _) = self.screen_size();
        let len = welcome.unicode_len();
        let padding: usize = if cols >= len {
            (cols - len) / 2
        } else {
            0
        };
        if padding > 0 {
            out.append("~");
            push_spaces(out, padding - 1);
        }
        out.append(welcome);
    }

    /// Adds row `y` of the window at the end of `out`.
    fn draw_row(&self, out: &mut String, y: usize)
        requires
            self.wf(),
        ensures
            final(out)@ == old(out)@ + self@.screen_row(y as nat),
    {
        let (coloff, rowoff) = self.offsets();
        let (cols, screen_rows) = self.screen_size();
        let buffer = self.buffer();
        let count = buffer.len();
        if rowoff >= count || y >= count - rowoff {
            if count == 0 && y == screen_rows / 3 {
                self.draw_welcome(out);
            } else {
                out.append("~");
            }
        } else {
            let row = buffer.row(y + rowoff);
            let (from, to) = window(row.render_len(), coloff, cols);
            row.write_render(out, from, to);
        }
        out.append("\x1b[K");
        out.append("\r\n");
    }

    /// Adds the rows of the window at the end of `out`.
    pub fn draw_rows(&self, out: &mut String)
        requires
            self.wf(),
        ensures
            final(out)@ == old(out)@ + self@.body(),
    {
        let (_, screen_rows) = self.screen_size();
        let mut y: usize = 0;
        while y < screen_rows
            invariant
                y <= screen_rows == self@.screen_rows,
                self.wf(),
                out@ == old(out)@ + self@.screen_rows_upto(y as nat),
            decreases screen_rows - y,
        {
            self.draw_row(out, y);
            y += 1;
        }
    }

    /// Adds the status bar at the end of `out`.
    pub fn draw_status_bar(&self, out: &mut String)
        requires
            self.wf(),
        ensures
            final(out)@ == old(out)@ + self@.status_bar(),
    {
        let (_, cy) = self.cursor();
        let (cols, _) = self.screen_size();
        let rows = self.buffer().len();
        let dirty = self.is_dirty();
        match self.file() {
            Some(file) => {
                let label = quote(file.display());
                push_status(out, label.as_str(), rows, cy, dirty, cols);
            },
            None => {
                push_status(out, "\"[No Name]\"", rows, cy, dirty, cols);
            },
        }
    }

    /// Adds the message bar, as it is at the time `now`, at the end of
    /// `out`.
    pub fn draw_message_bar(&self, out: &mut String, now: Nanos)
        ensures
            final(out)@ == old(out)@ + self@.message_bar(now),
    {
        let message = self.message();
        if message.is_visible(now) {
            let (cols, _) = self.screen_size();
            push_cut(out, message.text(), cols);
        }
        out.append("\x1b[K");
    }

    /// The whole screen at the time `now`, as one text for the terminal.
    pub fn refresh_screen(&self, now: Nanos) -> (frame: String)
        requires
            self.wf(),
            self@.in_view(),
        ensures
            frame@ == self@.frame(now),
    {
        let mut frame = String::from_str("\x1b[?25l");
        frame.append("\x1b[H");
        self.draw_rows(&mut frame);
        self.draw_status_bar(&mut frame);
        self.draw_message_bar(&mut frame, now);
        let (_, cy) = self.cursor();
        let (coloff, rowoff) = self.offsets();
        let (cols, rows) = self.screen_size();
        let rx = self.render_x();
        frame.append("\x1b[");
        push_decimal(&mut frame, cy - rowoff + 1);
        frame.push(';');
        push_decimal(&mut frame, rx - coloff + 1);
        frame.push('H');
        frame.append("\x1b[?25h");
        frame
    }

    /// The text that clears the screen when the session ends.
    pub fn clear_screen(&self) -> (text: String)
        ensures
            text@ == clear_text(),
    {
        let mut text = String::from_str("\x1b[2J");
        text.append("\x1b[H");
        text
    }
}

} // verus!
