//! The editor: a buffer, the cursor in it, the window onto it, and the
//! commands that change them.

use crate::ascii::{
    BACKSPACE, CARRIAGE_RETURN, DELETE, ESCAPE, LOWER_A, LOWER_B, LOWER_D, LOWER_E, LOWER_F,
    LOWER_H, LOWER_M, LOWER_N, LOWER_P, LOWER_Q, LOWER_S,
};
use crate::buffer::{file_text, split_lines, Document, TextBuffer};
use crate::input::InputSeq;
use crate::status::{FileName, FilePath, Nanos, Notice, StatusMessage};
use crate::tabs::render_col;
use crate::text::{decimal, push_decimal};
use vstd::prelude::*;
use vstd::string::{StrSliceExecFns, StringExecFns};
use vstd::utf8::encode_utf8;

verus! {

/// The four single steps of the cursor.
#[derive(PartialEq, Eq, Structural, Clone, Copy, Debug)]
pub enum CursorDir {
    Left,
    Right,
    Up,
    Down,
}

/// What an input event asks of the editor.
#[derive(PartialEq, Eq, Structural, Clone, Copy, Debug)]
pub enum Action {
    /// One step of the cursor.
    Move(CursorDir),
    PageUp,
    PageDown,
    /// To the first column of the row.
    Home,
    /// To the end of the row.
    End,
    /// Delete the character under the cursor.
    DeleteForward,
    /// Delete the character before the cursor.
    DeleteBack,
    Quit,
    /// Break the row at the cursor.
    NewLine,
    Save,
    /// Put the character of this byte in at the cursor.
    Insert(u8),
    /// A key that is taken and does nothing.
    Nothing,
    /// No key at all: the event is dropped.
    Ignore,
}

/// The bytes to write to a file, as a value.
pub struct FileImage {
    pub path: Seq<char>,
    pub bytes: Seq<u8>,
}

/// A file for the driver to write: the whole of `bytes`, to `path`.
#[derive(Debug)]
pub struct FileWrite {
    pub path: String,
    pub bytes: Vec<u8>,
}

impl View for FileWrite {
    type V = FileImage;

    open spec fn view(&self) -> FileImage {
        FileImage { path: self.path@, bytes: self.bytes@ }
    }
}

/// What a key press leaves for the driver to do.
#[derive(Debug)]
pub enum Outcome {
    /// Nothing but to go on.
    Continue,
    /// End the session.
    Quit,
    /// Write the file, and go on.
    Write(FileWrite),
}

/// The editor as a value.
pub struct EditorState {
    pub doc: Document,
    pub file: Option<FileName>,
    /// The cursor's column, as an index into the characters of its row.
    pub cx: nat,
    /// The cursor's row; the number of rows where it stands after the last.
    pub cy: nat,
    /// The cursor's display column.
    pub rx: nat,
    /// The height of the window onto the buffer, in rows.
    pub screen_rows: nat,
    /// The width of the window, in columns.
    pub screen_cols: nat,
    /// The row shown at the top of the window.
    pub rowoff: nat,
    /// The display column shown at the left of the window.
    pub coloff: nat,
    pub message: Notice,
    /// Whether a quit was asked for and is waiting to be confirmed.
    pub quitting: bool,
}

/// The message that greets the user.
pub open spec fn help_text() -> Seq<char> {
    "HELP: Ctrl-S = save | Ctrl-Q = quit"@
}

/// The message for a save without a file to save to.
pub open spec fn unnamed_text() -> Seq<char> {
    "Cannot save unnamed buffer"@
}

/// The message that asks to confirm a quit.
pub open spec fn unsaved_text() -> Seq<char> {
    "File has unsaved changes! Press Ctrl-Q again to quit"@
}

/// The request that makes the terminal tell its size: the cursor is sent far
/// to the right and far down, where it stops in the bottom right corner, and
/// the terminal is asked where the cursor stands.
pub open spec fn size_query_text() -> Seq<char> {
    "\x1b[9999C\x1b[9999B\x1b[6n"@
}

/// The message after a save of `bytes` bytes to the file shown as `display`.
pub open spec fn written_text(bytes: nat, display: Seq<char>) -> Seq<char> {
    decimal(bytes) + " bytes written to "@ + display
}

/// The action that an input event is bound to.
pub open spec fn action_of(seq: InputSeq) -> Action {
    match seq {
        InputSeq::UpKey => Action::Move(CursorDir::Up),
        InputSeq::LeftKey => Action::Move(CursorDir::Left),
        InputSeq::DownKey => Action::Move(CursorDir::Down),
        InputSeq::RightKey => Action::Move(CursorDir::Right),
        InputSeq::PageUpKey => Action::PageUp,
        InputSeq::PageDownKey => Action::PageDown,
        InputSeq::HomeKey => Action::Home,
        InputSeq::EndKey => Action::End,
        InputSeq::DeleteKey => Action::DeleteForward,
        InputSeq::Key(b, true) => if b == LOWER_P {
            Action::Move(CursorDir::Up)
        } else if b == LOWER_B {
            Action::Move(CursorDir::Left)
        } else if b == LOWER_N {
            Action::Move(CursorDir::Down)
        } else if b == LOWER_F {
            Action::Move(CursorDir::Right)
        } else if b == LOWER_A {
            Action::Home
        } else if b == LOWER_E {
            Action::End
        } else if b == LOWER_D {
            Action::DeleteForward
        } else if b == LOWER_Q {
            Action::Quit
        } else if b == LOWER_M {
            Action::NewLine
        } else if b == LOWER_H {
            Action::DeleteBack
        } else if b == LOWER_S {
            Action::Save
        } else {
            Action::Nothing
        },
        InputSeq::Key(b, false) => if b == CARRIAGE_RETURN {
            Action::NewLine
        } else if b == BACKSPACE || b == DELETE {
            Action::DeleteBack
        } else if b == ESCAPE {
            Action::Nothing
        } else {
            Action::Insert(b)
        },
        InputSeq::Unidentified => Action::Ignore,
        InputSeq::Cursor(_, _) => Action::Ignore,
    }
}

/// The window offset that keeps the position `pos` within a window of `size`
/// that began at `off`: the offset changes only if the position lies outside
/// the window, and then by no more than brings it in.
pub open spec fn scroll(pos: nat, off: nat, size: nat) -> nat {
    if pos < off {
        pos
    } else if pos >= off + size {
        (pos - size + 1) as nat
    } else {
        off
    }
}

/// The height of the text area of a terminal of `height` rows: two rows are
/// kept for the status bar and the message bar.
pub open spec fn text_rows(height: nat) -> nat {
    if height >= 2 {
        (height - 2) as nat
    } else {
        0
    }
}

impl EditorState {
    /// The editor at its start: no text, no file, the cursor at the origin,
    /// and the help message. `window_size` is the terminal's width and
    /// height, where it is known.
    pub open spec fn initial(window_size: Option<(usize, usize)>, now: Nanos) -> EditorState {
        let (w, h) = match window_size {
            Some(size) => size,
            None => (0usize, 0usize),
        };
        EditorState {
            doc: Document { lines: Seq::empty(), dirty: false },
            file: None,
            cx: 0,
            cy: 0,
            rx: 0,
            screen_rows: text_rows(h as nat),
            screen_cols: w as nat,
            rowoff: 0,
            coloff: 0,
            message: Notice { text: help_text(), timestamp: now },
            quitting: false,
        }
    }

    /// The number of rows of the buffer.
    pub open spec fn row_count(self) -> nat {
        self.doc.lines.len()
    }

    /// The cursor stands on a row or right after the last one, and within
    /// its row or right after the row's last character.
    pub open spec fn cursor_ok(self) -> bool {
        self.cy <= self.row_count() && self.cx <= self.doc.line_len(self.cy)
    }

    /// Whether the window has a size.
    pub open spec fn has_window(self) -> bool {
        self.screen_rows > 0 && self.screen_cols > 0
    }

    /// The display column of the cursor.
    pub open spec fn cursor_col(self) -> nat {
        if self.cy < self.row_count() {
            render_col(self.doc.lines[self.cy as int], self.cx)
        } else {
            0
        }
    }

    /// The cursor lies within the window, and `rx` is its display column.
    pub open spec fn in_view(self) -> bool {
        &&& self.rx == self.cursor_col()
        &&& self.rowoff <= self.cy < self.rowoff + self.screen_rows
        &&& self.coloff <= self.rx < self.coloff + self.screen_cols
    }

    /// The cursor's column brought back to the end of its row where it lies
    /// beyond it.
    pub open spec fn clamp(self) -> EditorState {
        if self.cx > self.doc.line_len(self.cy) {
            EditorState { cx: self.doc.line_len(self.cy), ..self }
        } else {
            self
        }
    }

    /// One step of the cursor, before its column is brought back into the
    /// row. Left of the first column lies the end of the row above; right of
    /// a row's end lies the start of the row below.
    pub open spec fn step(self, dir: CursorDir) -> EditorState {
        match dir {
            CursorDir::Up => if self.cy > 0 {
                EditorState { cy: (self.cy - 1) as nat, ..self }
            } else {
                self
            },
            CursorDir::Left => if self.cx > 0 {
                EditorState { cx: (self.cx - 1) as nat, ..self }
            } else if self.cy > 0 {
                EditorState {
                    cy: (self.cy - 1) as nat,
                    cx: self.doc.line_len((self.cy - 1) as nat),
                    ..self
                }
            } else {
                self
            },
            CursorDir::Down => if self.cy < self.row_count() {
                EditorState { cy: self.cy + 1, ..self }
            } else {
                self
            },
            CursorDir::Right => if self.cy < self.row_count() {
                if self.cx < self.doc.line_len(self.cy) {
                    EditorState { cx: self.cx + 1, ..self }
                } else {
                    EditorState { cy: self.cy + 1, cx: 0, ..self }
                }
            } else {
                self
            },
        }
    }

    /// One move of the cursor.
    pub open spec fn move_cursor(self, dir: CursorDir) -> EditorState {
        self.step(dir).clamp()
    }

    /// `n` moves of the cursor, one after the other.
    pub open spec fn move_times(self, dir: CursorDir, n: nat) -> EditorState
        decreases n,
    {
        if n == 0 {
            self
        } else {
            self.move_times(dir, (n - 1) as nat).move_cursor(dir)
        }
    }

    /// A page up: from the top row of the window, or from the end of the
    /// buffer if that comes first, as many moves up as the window has rows.
    pub open spec fn page_up(self) -> EditorState {
        let top = if self.rowoff < self.row_count() {
            self.rowoff
        } else {
            self.row_count()
        };
        (EditorState { cy: top, ..self }).move_times(CursorDir::Up, self.screen_rows).clamp()
    }

    /// A page down: from the bottom row of the window, or from the end of
    /// the buffer if that comes first, as many moves down as the window has
    /// rows.
    pub open spec fn page_down(self) -> EditorState {
        let last = if self.rowoff + self.screen_rows >= 1 {
            (self.rowoff + self.screen_rows - 1) as nat
        } else {
            0
        };
        let bottom = if last < self.row_count() {
            last
        } else {
            self.row_count()
        };
        (EditorState { cy: bottom, ..self }).move_times(CursorDir::Down, self.screen_rows).clamp()
    }

    /// The window brought to where it shows the cursor.
    pub open spec fn setup_scroll(self) -> EditorState {
        let rx = self.cursor_col();
        EditorState {
            rx,
            rowoff: scroll(self.cy, self.rowoff, self.screen_rows),
            coloff: scroll(rx, self.coloff, self.screen_cols),
            ..self
        }
    }

    /// `ch` put in at the cursor, which moves on by one column. A cursor
    /// after the last row gets a new row first.
    pub open spec fn insert_char(self, ch: char) -> EditorState {
        let doc = if self.cy == self.row_count() {
            self.doc.insert_blank_row(self.cy)
        } else {
            self.doc
        };
        EditorState { doc: doc.insert_char(self.cy, self.cx, ch), cx: self.cx + 1, ..self }
    }

    /// The character before the cursor taken out, and the cursor moved back
    /// over it. At the start of a row that is the break before the row: the
    /// row is joined to the one above it. Nothing changes at the start of
    /// the document and after the last row.
    pub open spec fn delete_char(self) -> EditorState {
        if self.cy >= self.row_count() || (self.cx == 0 && self.cy == 0) {
            self
        } else if self.cx > 0 {
            EditorState {
                doc: self.doc.delete_char(self.cy, self.cx),
                cx: (self.cx - 1) as nat,
                ..self
            }
        } else {
            EditorState {
                doc: self.doc.delete_char(self.cy, 0),
                cy: (self.cy - 1) as nat,
                cx: self.doc.line_len((self.cy - 1) as nat),
                ..self
            }
        }
    }

    /// The row broken at the cursor, which moves to the start of the new
    /// row. A cursor after the last row adds an empty row.
    pub open spec fn insert_line(self) -> EditorState {
        let doc = if self.cy >= self.row_count() {
            self.doc.insert_blank_row(self.row_count())
        } else {
            self.doc.split_row_at(self.cy, self.cx)
        };
        EditorState { doc, cy: self.cy + 1, cx: 0, ..self }
    }

    /// The buffer replaced by the lines of `text`, which was read from the
    /// file at `path`: the buffer has no unsaved changes, and the cursor
    /// stands at the origin.
    pub open spec fn open_file(self, path: Seq<char>, text: Seq<char>) -> EditorState {
        EditorState {
            doc: Document { lines: split_lines(text), dirty: false },
            file: Some(FileName { path, display: path }),
            cx: 0,
            cy: 0,
            ..self
        }
    }

    /// The file that a save writes: every line followed by a line feed, in
    /// UTF-8. None where the buffer has no file.
    pub open spec fn file_image(self) -> Option<FileImage> {
        match self.file {
            Some(file) => Some(
                FileImage { path: file.path, bytes: encode_utf8(file_text(self.doc.lines)) },
            ),
            None => None,
        }
    }

    /// The editor after a save at the time `now`. With a file, the message
    /// tells how many bytes were written, and the buffer has no unsaved
    /// changes any more; without one, the message says so.
    pub open spec fn save(self, now: Nanos) -> EditorState {
        match self.file {
            Some(file) => EditorState {
                doc: Document { dirty: false, ..self.doc },
                message: Notice {
                    text: written_text(encode_utf8(file_text(self.doc.lines)).len(), file.display),
                    timestamp: now,
                },
                ..self
            },
            None => EditorState {
                message: Notice { text: unnamed_text(), timestamp: now },
                ..self
            },
        }
    }

    /// Whether the action ends the session: a quit does, on a buffer without
    /// unsaved changes or when it confirms a quit asked for just before.
    pub open spec fn quits(self, action: Action) -> bool {
        action == Action::Quit && (!self.doc.dirty || self.quitting)
    }

    /// The editor after the action, taken at the time `now`.
    pub open spec fn perform(self, action: Action, now: Nanos) -> EditorState {
        match action {
            Action::Ignore => self,
            Action::Quit => if self.quits(action) {
                self
            } else {
                EditorState {
                    quitting: true,
                    message: Notice { text: unsaved_text(), timestamp: now },
                    ..self
                }
            },
            _ => {
                let next = match action {
                    Action::Move(dir) => self.move_cursor(dir),
                    Action::PageUp => self.page_up(),
                    Action::PageDown => self.page_down(),
                    Action::Home => EditorState { cx: 0, ..self },
                    Action::End => EditorState { cx: self.doc.line_len(self.cy), ..self },
                    Action::DeleteForward => self.move_cursor(CursorDir::Right).delete_char(),
                    Action::DeleteBack => self.delete_char(),
                    Action::NewLine => self.insert_line(),
                    Action::Save => self.save(now),
                    Action::Insert(b) => self.insert_char(b as char),
                    _ => self,
                };
                EditorState { quitting: false, ..next }
            },
        }
    }

    /// The editor after the input event `seq`, taken at the time `now`.
    pub open spec fn process_keypress(self, seq: InputSeq, now: Nanos) -> EditorState {
        self.perform(action_of(seq), now)
    }

    /// The editor after it has taken the size of its window from the input
    /// event `seq`. An editor that has a window keeps it. One that has none
    /// takes it from the terminal's report of the cursor position, which
    /// gives the terminal's height and width.
    pub open spec fn ensure_screen_size(self, seq: InputSeq) -> EditorState {
        if self.has_window() {
            self
        } else {
            match seq {
                InputSeq::Cursor(rows, cols) => EditorState {
                    screen_cols: cols as nat,
                    screen_rows: text_rows(rows as nat),
                    ..self
                },
                _ => self,
            }
        }
    }
}

/// A step to the left from the first column of a row that is not the first
/// leads to the end of the row above.
pub proof fn lemma_left_wraps(s: EditorState)
    requires
        s.cursor_ok(),
        s.cx == 0,
        s.cy > 0,
    ensures
        s.move_cursor(CursorDir::Left).cy == s.cy - 1,
        s.move_cursor(CursorDir::Left).cx == s.doc.lines[s.cy - 1].len(),
{
}

/// A step to the right from the end of a row leads to the start of the row
/// below, or of the place after the last row.
pub proof fn lemma_right_wraps(s: EditorState)
    requires
        s.cursor_ok(),
        s.cy < s.row_count(),
        s.cx == s.doc.lines[s.cy as int].len(),
    ensures
        s.move_cursor(CursorDir::Right).cy == s.cy + 1,
        s.move_cursor(CursorDir::Right).cx == 0,
{
}

/// Scrolling brings the cursor into a window that has a size.
pub proof fn lemma_scroll_shows_cursor(s: EditorState)
    requires
        s.has_window(),
    ensures
        s.setup_scroll().in_view(),
{
}

/// Scrolling leaves alone a window that shows the cursor already.
pub proof fn lemma_scroll_keeps_view(s: EditorState)
    requires
        s.in_view(),
    ensures
        s.setup_scroll() == s,
{
}

/// The action that the input event `seq` is bound to.
pub fn binding(seq: InputSeq) -> (action: Action)
    ensures
        action == action_of(seq),
{
    match seq {
        InputSeq::UpKey => Action::Move(CursorDir::Up),
        InputSeq::LeftKey => Action::Move(CursorDir::Left),
        InputSeq::DownKey => Action::Move(CursorDir::Down),
        InputSeq::RightKey => Action::Move(CursorDir::Right),
        InputSeq::PageUpKey => Action::PageUp,
        InputSeq::PageDownKey => Action::PageDown,
        InputSeq::HomeKey => Action::Home,
        InputSeq::EndKey => Action::End,
        InputSeq::DeleteKey => Action::DeleteForward,
        InputSeq::Key(b, true) => if b == LOWER_P {
            Action::Move(CursorDir::Up)
        } else if b == LOWER_B {
            Action::Move(CursorDir::Left)
        } else if b == LOWER_N {
            Action::Move(CursorDir::Down)
        } else if b == LOWER_F {
            Action::Move(CursorDir::Right)
        } else if b == LOWER_A {
            Action::Home
        } else if b == LOWER_E {
            Action::End
        } else if b == LOWER_D {
            Action::DeleteForward
        } else if b == LOWER_Q {
            Action::Quit
        } else if b == LOWER_M {
            Action::NewLine
        } else if b == LOWER_H {
            Action::DeleteBack
        } else if b == LOWER_S {
            Action::Save
        } else {
            Action::Nothing
        },
        InputSeq::Key(b, false) => if b == CARRIAGE_RETURN {
            Action::NewLine
        } else if b == BACKSPACE || b == DELETE {
            Action::DeleteBack
        } else if b == ESCAPE {
            Action::Nothing
        } else {
            Action::Insert(b)
        },
        InputSeq::Unidentified => Action::Ignore,
        InputSeq::Cursor(_, _) => Action::Ignore,
    }
}

/// The window offset that keeps `pos` within a window of `size` that began
/// at `off`.
fn scroll_offset(pos: usize, off: usize, size: usize) -> (offset: usize)
    requires
        size > 0,
    ensures
        offset == scroll(pos as nat, off as nat, size as nat),
{
    if pos < off {
        pos
    } else if pos - off >= size {
        pos - size + 1
    } else {
        off
    }
}

/// The editor.
pub struct Editor {
    file: Option<FilePath>,
    cx: usize,
    cy: usize,
    rx: usize,
    screen_rows: usize,
    screen_cols: usize,
    buffer: TextBuffer,
    rowoff: usize,
    coloff: usize,
    message: StatusMessage,
    quitting: bool,
}

impl View for Editor {
    type V = EditorState;

    closed spec fn view(&self) -> EditorState {
        EditorState {
            doc: self.buffer@,
            file: match self.file {
                Some(file) => Some(file@),
                None => None,
            },
            cx: self.cx as nat,
            cy: self.cy as nat,
            rx: self.rx as nat,
            screen_rows: self.screen_rows as nat,
            screen_cols: self.screen_cols as nat,
            rowoff: self.rowoff as nat,
            coloff: self.coloff as nat,
            message: self.message@,
            quitting: self.quitting,
        }
    }
}

impl Editor {
    /// Every row's display form is the tab expansion of its content.
    pub closed spec fn rows_wf(&self) -> bool {
        self.buffer.wf()
    }

    /// The rows are well formed, and the cursor stands in the buffer.
    pub open spec fn wf(&self) -> bool {
        self.rows_wf() && self@.cursor_ok()
    }

    /// The rows are well formed, and the cursor stands on a row or right
    /// after the last one; its column may lie anywhere.
    spec fn rows_ok(&self) -> bool {
        self.buffer.wf() && self.cy <= self.buffer@.lines.len()
    }

    /// An editor without text or file. `window_size` is the terminal's
    /// width and height, where it is known; `now` is the time.
    pub fn new(window_size: Option<(usize, usize)>, now: Nanos) -> (editor: Editor)
        ensures
            editor@ == EditorState::initial(window_size, now),
            editor.wf(),
    {
        let (w, h) = match window_size {
            Some(size) => size,
            None => (0, 0),
        };
        Editor {
            file: None,
            cx: 0,
            cy: 0,
            rx: 0,
            screen_cols: w,
            screen_rows: if h >= 2 {
                h - 2
            } else {
                0
            },
            buffer: TextBuffer::new(),
            rowoff: 0,
            coloff: 0,
            message: StatusMessage::new("HELP: Ctrl-S = save | Ctrl-Q = quit", now),
            quitting: false,
        }
    }

    /// The buffer.
    pub fn buffer(&self) -> (buffer: &TextBuffer)
        ensures
            buffer@ == self@.doc,
            self.rows_wf() ==> buffer.wf(),
    {
        &self.buffer
    }

    /// The file of the buffer, if it has one.
    pub fn file(&self) -> (file: Option<&FilePath>)
        ensures
            match file {
                Some(f) => self@.file == Some(f@),
                None => self@.file is None,
            },
    {
        self.file.as_ref()
    }

    /// The message of the moment.
    pub fn message(&self) -> (message: &StatusMessage)
        ensures
            message@ == self@.message,
    {
        &self.message
    }

    /// The cursor: its column and its row.
    pub fn cursor(&self) -> (at: (usize, usize))
        ensures
            at.0 == self@.cx,
            at.1 == self@.cy,
    {
        (self.cx, self.cy)
    }

    /// The cursor's display column, as the last scroll found it.
    pub fn render_x(&self) -> (rx: usize)
        ensures
            rx == self@.rx,
    {
        self.rx
    }

    /// The window's offsets: the display column at its left, and the row at
    /// its top.
    pub fn offsets(&self) -> (at: (usize, usize))
        ensures
            at.0 == self@.coloff,
            at.1 == self@.rowoff,
    {
        (self.coloff, self.rowoff)
    }

    /// The window's size: its width in columns, and its height in rows.
    pub fn screen_size(&self) -> (size: (usize, usize))
        ensures
            size.0 == self@.screen_cols,
            size.1 == self@.screen_rows,
    {
        (self.screen_cols, self.screen_rows)
    }

    /// Whether the window has a size.
    pub fn has_window(&self) -> (has: bool)
        ensures
            has == self@.has_window(),
    {
        self.screen_rows > 0 && self.screen_cols > 0
    }

    /// Whether the buffer has unsaved changes.
    pub fn is_dirty(&self) -> (dirty: bool)
        ensures
            dirty == self@.doc.dirty,
    {
        self.buffer.is_dirty()
    }

    /// Whether a quit was asked for and is waiting to be confirmed.
    pub fn is_quitting(&self) -> (quitting: bool)
        ensures
            quitting == self@.quitting,
    {
        self.quitting
    }

    /// The request to send to the terminal for its size, where the window
    /// has none yet. The terminal's answer comes as an input event, which
    /// `ensure_screen_size` takes.
    pub fn size_query(&self) -> (query: Option<String>)
        ensures
            match query {
                Some(text) => !self@.has_window() && text@ == size_query_text(),
                None => self@.has_window(),
            },
    {
        if self.has_window() {
            None
        } else {
            Some(String::from_str("\x1b[9999C\x1b[9999B\x1b[6n"))
        }
    }

    /// Takes the size of the window from the input event `seq`, unless the
    /// window has a size already. Tells whether the wait for a size is over:
    /// it is when the window has a size, and when `seq` is the terminal's
    /// report.
    pub fn ensure_screen_size(&mut self, seq: InputSeq) -> (done: bool)
        requires
            old(self).wf(),
        ensures
            final(self)@ == old(self)@.ensure_screen_size(seq),
            final(self).wf(),
            done == (old(self)@.has_window() || seq is Cursor),
    {
        if self.screen_cols > 0 && self.screen_rows > 0 {
            return true;
        }
        match seq {
            InputSeq::Cursor(rows, cols) => {
                self.screen_cols = cols;
                self.screen_rows = if rows >= 2 {
                    rows - 2
                } else {
                    0
                };
                true
            },
            _ => false,
        }
    }

    /// Replaces the buffer by the lines of `text`, the content of the file
    /// at `path`. A line ends at a line feed; a carriage return before the
    /// line feed is dropped with it.
    pub fn open_file(&mut self, path: &str, text: &str)
        ensures
            final(self)@ == old(self)@.open_file(path@, text@),
            final(self).wf(),
    {
        self.buffer = TextBuffer::load(text);
        self.file = Some(FilePath::from(path));
        self.cx = 0;
        self.cy = 0;
    }

    /// Saves the buffer: hands back the file for the driver to write, and
    /// tells the user in the message. Without a file there is nothing to
    /// write.
    pub fn save(&mut self, now: Nanos) -> (write: Option<FileWrite>)
        requires
            old(self).wf(),
        ensures
            final(self)@ == old(self)@.save(now),
            final(self).wf(),
            match write {
                Some(w) => old(self)@.file_image() == Some(w@),
                None => old(self)@.file_image() is None,
            },
    {
        let (path, display) = match &self.file {
            Some(file) => (String::from_str(file.path()), String::from_str(file.display())),
            None => {
                self.message = StatusMessage::new("Cannot save unnamed buffer", now);
                return None;
            },
        };
        let text = self.buffer.text();
        let bytes = text.as_str().as_bytes_vec();
        let mut msg = String::new();
        push_decimal(&mut msg, bytes.len());
        msg.append(" bytes written to ");
        msg.append(display.as_str());
        assert(msg@ == written_text(bytes@.len(), display@)) by {
            assert(Seq::<char>::empty() + decimal(bytes@.len()) == decimal(bytes@.len()));
        }
        self.message = StatusMessage::new(msg.as_str(), now);
        self.buffer.mark_clean();
        Some(FileWrite { path, bytes })
    }

    /// Brings the window to where it shows the cursor.
    pub fn setup_scroll(&mut self)
        requires
            old(self).wf(),
            old(self)@.has_window(),
        ensures
            final(self)@ == old(self)@.setup_scroll(),
            final(self)@.in_view(),
            final(self).wf(),
    {
        if self.cy < self.buffer.len() {
            self.rx = self.buffer.row(self.cy).rx_from_cx(self.cx);
        } else {
            self.rx = 0;
        }
        self.rowoff = scroll_offset(self.cy, self.rowoff, self.screen_rows);
        self.coloff = scroll_offset(self.rx, self.coloff, self.screen_cols);
    }

    /// Puts `ch` in at the cursor.
    pub fn insert_char(&mut self, ch: char)
        requires
            old(self).wf(),
        ensures
            final(self)@ == old(self)@.insert_char(ch),
            final(self).wf(),
    {
        if self.cy == self.buffer.len() {
            self.buffer.insert_blank_row(self.cy);
        }
        self.buffer.insert_char(self.cy, self.cx, ch);
        proof {
            self.buffer.lemma_len_fits();
            assert(self.buffer@.lines[self.cy as int].len() <= usize::MAX);
        }
        self.cx += 1;
    }

    /// Deletes the character before the cursor.
    pub fn delete_char(&mut self)
        requires
            old(self).wf(),
        ensures
            final(self)@ == old(self)@.delete_char(),
            final(self).wf(),
    {
        if self.cy == self.buffer.len() || self.cx == 0 && self.cy == 0 {
            return ;
        }
        if self.cx > 0 {
            self.buffer.delete_char(self.cy, self.cx);
            self.cx -= 1;
        } else {
            self.cx = self.buffer.line_len(self.cy - 1);
            self.buffer.delete_char(self.cy, 0);
            self.cy -= 1;
        }
    }

    /// Breaks the row at the cursor.
    pub fn insert_line(&mut self)
        requires
            old(self).wf(),
        ensures
            final(self)@ == old(self)@.insert_line(),
            final(self).wf(),
    {
        if self.cy >= self.buffer.len() {
            self.buffer.insert_blank_row(self.buffer.len());
        } else {
            self.buffer.split_row_at(self.cy, self.cx);
        }
        proof {
            self.buffer.lemma_len_fits();
        }
        self.cy += 1;
        self.cx = 0;
    }

    /// One move of the cursor, from any column.
    fn shift_cursor(&mut self, dir: CursorDir)
        requires
            old(self).rows_ok(),
        ensures
            final(self)@ == old(self)@.move_cursor(dir),
            final(self).wf(),
    {
        match dir {
            CursorDir::Up => {
                if self.cy > 0 {
                    self.cy -= 1;
                }
            },
            CursorDir::Left => {
                if self.cx > 0 {
                    self.cx -= 1;
                } else if self.cy > 0 {
                    self.cy -= 1;
                    self.cx = self.buffer.line_len(self.cy);
                }
            },
            CursorDir::Down => {
                if self.cy < self.buffer.len() {
                    self.cy += 1;
                }
            },
            CursorDir::Right => {
                if self.cy < self.buffer.len() {
                    let len = self.buffer.line_len(self.cy);
                    if self.cx < len {
                        self.cx += 1;
                    } else {
                        self.cy += 1;
                        self.cx = 0;
                    }
                }
            },
        }
        self.clamp_cursor();
    }

    /// Brings the cursor's column back to the end of its row where it lies
    /// beyond it.
    fn clamp_cursor(&mut self)
        requires
            old(self).rows_ok(),
        ensures
            final(self)@ == old(self)@.clamp(),
            final(self).wf(),
    {
        let len = self.buffer.line_len(self.cy);
        if self.cx > len {
            self.cx = len;
        }
    }

    /// Moves the cursor one step.
    pub fn move_cursor(&mut self, dir: CursorDir)
        requires
            old(self).wf(),
        ensures
            final(self)@ == old(self)@.move_cursor(dir),
            final(self).wf(),
    {
        self.shift_cursor(dir);
    }

    /// Moves the cursor `n` steps.
    fn shift_times(&mut self, dir: CursorDir, n: usize)
        requires
            old(self).rows_ok(),
        ensures
            final(self)@ == old(self)@.move_times(dir, n as nat),
            final(self).rows_ok(),
    {
        let mut i: usize = 0;
        while i < n
            invariant
                i <= n,
                self.rows_ok(),
                self@ == old(self)@.move_times(dir, i as nat),
            decreases n - i,
        {
            self.shift_cursor(dir);
            i += 1;
        }
    }

    /// Moves the cursor up by a page.
    fn page_up(&mut self)
        requires
            old(self).wf(),
        ensures
            final(self)@ == old(self)@.page_up(),
            final(self).wf(),
    {
        let count = self.buffer.len();
        self.cy = if self.rowoff < count {
            self.rowoff
        } else {
            count
        };
        self.shift_times(CursorDir::Up, self.screen_rows);
        self.clamp_cursor();
    }

    /// Moves the cursor down by a page.
    fn page_down(&mut self)
        requires
            old(self).wf(),
        ensures
            final(self)@ == old(self)@.page_down(),
            final(self).wf(),
    {
        let count = self.buffer.len();
        let bottom: usize = if self.screen_rows == 0 {
            if self.rowoff == 0 {
                0
            } else if self.rowoff - 1 < count {
                self.rowoff - 1
            } else {
                count
            }
        } else if self.rowoff >= count || self.screen_rows - 1 >= count - self.rowoff {
            count
        } else {
            self.rowoff + (self.screen_rows - 1)
        };
        self.cy = bottom;
        self.shift_times(CursorDir::Down, self.screen_rows);
        self.clamp_cursor();
    }

    /// Takes the input event `seq` at the time `now`: moves the cursor,
    /// edits the buffer, saves, or arms and confirms a quit, as the event's
    /// action says. An event that is no key changes nothing.
    pub fn process_keypress(&mut self, seq: InputSeq, now: Nanos) -> (outcome: Outcome)
        requires
            old(self).wf(),
        ensures
            final(self)@ == old(self)@.process_keypress(seq, now),
            final(self).wf(),
            outcome is Quit <==> old(self)@.quits(action_of(seq)),
            match outcome {
                Outcome::Write(w) => action_of(seq) == Action::Save && old(self)@.file_image()
                    == Some(w@),
                _ => !(action_of(seq) == Action::Save && old(self)@.file_image() is Some),
            },
    {
        let action = binding(seq);
        let mut outcome = Outcome::Continue;
        match action {
            Action::Ignore => {
                return Outcome::Continue;
            },
            Action::Quit => {
                if !self.buffer.is_dirty() || self.quitting {
                    return Outcome::Quit;
                }
                self.quitting = true;
                self.message = StatusMessage::new(
                    "File has unsaved changes! Press Ctrl-Q again to quit",
                    now,
                );
                return Outcome::Continue;
            },
            Action::Move(dir) => {
                self.move_cursor(dir);
            },
            Action::PageUp => {
                self.page_up();
            },
            Action::PageDown => {
                self.page_down();
            },
            Action::Home => {
                self.cx = 0;
            },
            Action::End => {
                self.cx = self.buffer.line_len(self.cy);
            },
            Action::DeleteForward => {
                self.move_cursor(CursorDir::Right);
                self.delete_char();
            },
            Action::DeleteBack => {
                self.delete_char();
            },
            Action::NewLine => {
                self.insert_line();
            },
            Action::Save => {
                if let Some(w) = self.save(now) {
                    outcome = Outcome::Write(w);
                }
            },
            Action::Insert(b) => {
                self.insert_char(b as char);
            },
            Action::Nothing => {},
        }
        self.quitting = false;
        outcome
    }
}

} // verus!
