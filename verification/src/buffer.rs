//! The text buffer: the rows of the document, in order, and its edits.

use crate::row::{head, tail, with_char, without_char, Row};
use crate::text::{chars_of, range_of};
use vstd::prelude::*;

verus! {

/// The document as a value: its lines from first to last, and whether it has
/// been changed since it was loaded or saved.
pub struct Document {
    pub lines: Seq<Seq<char>>,
    pub dirty: bool,
}

impl Document {
    /// The number of characters of line `row`; none where there is no such
    /// line.
    pub open spec fn line_len(self, row: nat) -> nat {
        if row < self.lines.len() {
            self.lines[row as int].len()
        } else {
            0
        }
    }

    /// The document with `lines` for its lines, marked as changed.
    pub open spec fn edited(self, lines: Seq<Seq<char>>) -> Document {
        Document { lines, dirty: true }
    }

    /// `ch` put into line `row` at column `col`, or at the line's end if the
    /// column lies beyond it. Nothing changes where there is no line `row`.
    pub open spec fn insert_char(self, row: nat, col: nat, ch: char) -> Document {
        if row < self.lines.len() {
            self.edited(self.lines.update(row as int, with_char(self.lines[row as int], col, ch)))
        } else {
            self
        }
    }

    /// The character before column `col` of line `row` taken out. At column
    /// 0 that is the break before the line: the line is joined to the one
    /// above it. Nothing changes at the start of the document, where there is
    /// no line `row`, and where the line has no character before `col`.
    pub open spec fn delete_char(self, row: nat, col: nat) -> Document {
        if row >= self.lines.len() {
            self
        } else if col == 0 {
            self.join_row(row)
        } else if col <= self.lines[row as int].len() {
            let line = self.lines[row as int];
            self.edited(self.lines.update(row as int, without_char(line, (col - 1) as nat)))
        } else {
            self
        }
    }

    /// `text` added at the end of line `row`. Nothing changes where `text` is
    /// empty or there is no line `row`.
    pub open spec fn append_text(self, row: nat, text: Seq<char>) -> Document {
        if row < self.lines.len() && text.len() > 0 {
            self.edited(self.lines.update(row as int, self.lines[row as int] + text))
        } else {
            self
        }
    }

    /// Line `row` cut at column `col`: the line keeps what stands before the
    /// column, and a new line right after it holds the rest. Nothing changes
    /// where there is no line `row`.
    pub open spec fn split_row_at(self, row: nat, col: nat) -> Document {
        if row < self.lines.len() {
            let line = self.lines[row as int];
            self.edited(
                self.lines.update(row as int, head(line, col)).insert(
                    row as int + 1,
                    tail(line, col),
                ),
            )
        } else {
            self
        }
    }

    /// Line `row` added to the end of the line above it, and taken out.
    /// Nothing changes for the first line and where there is no line `row`.
    pub open spec fn join_row(self, row: nat) -> Document {
        if 0 < row < self.lines.len() {
            self.edited(
                self.lines.update(row - 1, self.lines[row - 1] + self.lines[row as int]).remove(
                    row as int,
                ),
            )
        } else {
            self
        }
    }

    /// An empty line put in before line `index`, or after the last line
    /// where `index` is the number of lines. Nothing changes for a greater
    /// index.
    pub open spec fn insert_blank_row(self, index: nat) -> Document {
        if index <= self.lines.len() {
            self.edited(self.lines.insert(index as int, Seq::empty()))
        } else {
            self
        }
    }
}

/// The length of the first line of `text`: the number of characters before
/// the first line feed.
pub open spec fn line_end(text: Seq<char>) -> nat
    decreases text.len(),
{
    if text.len() == 0 || text[0] == '\n' {
        0
    } else {
        1 + line_end(text.skip(1))
    }
}

/// `line` without the carriage return at its end, if it has one there.
pub open spec fn strip_cr(line: Seq<char>) -> Seq<char> {
    if line.len() > 0 && line.last() == '\r' {
        line.drop_last()
    } else {
        line
    }
}

/// The lines of `text`. A line ends at a line feed, and a carriage return
/// right before the line feed goes with it. What follows the last line feed
/// is a line too, unless it is empty.
pub open spec fn split_lines(text: Seq<char>) -> Seq<Seq<char>>
    decreases text.len(),
{
    if text.len() == 0 {
        Seq::empty()
    } else {
        let end = line_end(text);
        if end < text.len() {
            seq![strip_cr(text.take(end as int))] + split_lines(text.skip(end as int + 1))
        } else {
            seq![text]
        }
    }
}

/// The text of a file that holds `lines`: every line followed by one line
/// feed.
pub open spec fn file_text(lines: Seq<Seq<char>>) -> Seq<char>
    decreases lines.len(),
{
    if lines.len() == 0 {
        Seq::empty()
    } else {
        file_text(lines.drop_last()) + lines.last() + seq!['\n']
    }
}

/// Putting a character into a line, at or before the line's end, and then
/// deleting before the column after it gives back the lines as they were.
pub proof fn lemma_insert_then_delete(doc: Document, row: nat, col: nat, ch: char)
    requires
        row < doc.lines.len(),
        col <= doc.lines[row as int].len(),
    ensures
        doc.insert_char(row, col, ch).delete_char(row, col + 1).lines == doc.lines,
{
    let line = doc.lines[row as int];
    let longer = with_char(line, col, ch);
    assert(without_char(longer, col) == line);
    assert(doc.lines.update(row as int, longer).update(row as int, line) == doc.lines);
}

/// Cutting a line in two and then joining the new line to the one above it
/// gives back the lines as they were.
pub proof fn lemma_split_then_join(doc: Document, row: nat, col: nat)
    requires
        row < doc.lines.len(),
    ensures
        doc.split_row_at(row, col).join_row(row + 1).lines == doc.lines,
{
    let line = doc.lines[row as int];
    assert(head(line, col) + tail(line, col) == line);
    let cut = doc.split_row_at(row, col).lines;
    let joined = cut[row as int] + cut[row as int + 1];
    assert(cut.update(row as int, joined).remove(row as int + 1) == doc.lines);
}

/// A line can be written to a file and read back as it is: it holds no line
/// feed and does not end in a carriage return.
pub open spec fn is_plain_line(line: Seq<char>) -> bool {
    &&& forall|i: int| 0 <= i < line.len() ==> line[i] != '\n'
    &&& line.len() > 0 ==> line.last() != '\r'
}

/// The text of a file begins with its first line and a line feed.
proof fn lemma_file_text_front(lines: Seq<Seq<char>>)
    requires
        lines.len() > 0,
    ensures
        file_text(lines) == lines[0] + seq!['\n'] + file_text(lines.skip(1)),
    decreases lines.len(),
{
    if lines.len() == 1 {
        assert(file_text(lines.drop_last()) == Seq::<char>::empty());
        assert(file_text(lines.skip(1)) == Seq::<char>::empty());
        assert(file_text(lines) == Seq::<char>::empty() + lines[0] + seq!['\n']);
    } else {
        let shorter = lines.drop_last();
        lemma_file_text_front(shorter);
        assert(shorter.skip(1) == lines.skip(1).drop_last());
        assert(lines.skip(1).last() == lines.last());
        assert(file_text(lines) == (lines[0] + seq!['\n'] + file_text(shorter.skip(1)))
            + lines.last() + seq!['\n']);
        assert(file_text(lines.skip(1)) == file_text(shorter.skip(1)) + lines.last() + seq![
            '\n',
        ]);
    }
}

/// A text that begins with a line without line feeds, and then a line feed,
/// has that line for its first line.
proof fn lemma_line_end_of_line(line: Seq<char>, rest: Seq<char>)
    requires
        forall|i: int| 0 <= i < line.len() ==> line[i] != '\n',
    ensures
        line_end(line + seq!['\n'] + rest) == line.len(),
    decreases line.len(),
{
    let text = line + seq!['\n'] + rest;
    if line.len() > 0 {
        assert(text[0] == line[0]);
        assert(text.skip(1) == line.skip(1) + seq!['\n'] + rest);
        lemma_line_end_of_line(line.skip(1), rest);
    } else {
        assert(text[0] == '\n');
    }
}

/// The lines of the text of a file that holds `lines` are `lines` again,
/// where every one of them can be written and read back as it is.
pub proof fn lemma_split_file_text(lines: Seq<Seq<char>>)
    requires
        forall|i: int| 0 <= i < lines.len() ==> is_plain_line(#[trigger] lines[i]),
    ensures
        split_lines(file_text(lines)) == lines,
    decreases lines.len(),
{
    if lines.len() > 0 {
        let first = lines[0];
        let rest = lines.skip(1);
        let text = file_text(lines);
        assert(is_plain_line(first));
        assert forall|i: int| 0 <= i < rest.len() implies is_plain_line(#[trigger] rest[i]) by {
            assert(rest[i] == lines[i + 1]);
        }
        lemma_file_text_front(lines);
        lemma_line_end_of_line(first, file_text(rest));
        lemma_split_file_text(rest);
        assert(text.take(first.len() as int) == first);
        assert(text.skip(first.len() as int + 1) == file_text(rest));
        assert(seq![first] + rest == lines);
    }
}

/// The index at which the line that starts at `start` ends.
fn line_stop(chars: &Vec<char>, start: usize) -> (end: usize)
    requires
        start <= chars.len(),
    ensures
        start <= end <= chars.len(),
        end - start == line_end(chars@.skip(start as int)),
{
    let mut end: usize = start;
    while end < chars.len() && chars[end] != '\n'
        invariant
            start <= end <= chars.len(),
            line_end(chars@.skip(start as int)) == (end - start) + line_end(
                chars@.skip(end as int),
            ),
        decreases chars.len() - end,
    {
        assert(chars@.skip(end as int).skip(1) == chars@.skip(end + 1));
        end += 1;
    }
    end
}

/// The rows of the document.
pub struct TextBuffer {
    rows: Vec<Row>,
    dirty: bool,
}

impl View for TextBuffer {
    type V = Document;

    closed spec fn view(&self) -> Document {
        Document { lines: Seq::new(self.rows@.len(), |i: int| self.rows@[i]@), dirty: self.dirty }
    }
}

impl TextBuffer {
    /// Every row's display form is the tab expansion of its content.
    pub closed spec fn wf(&self) -> bool {
        forall|i: int| 0 <= i < self.rows@.len() ==> (#[trigger] self.rows@[i]).wf()
    }

    /// The rows can be counted in a machine word, and so can the characters
    /// of each row.
    pub proof fn lemma_len_fits(&self)
        ensures
            self@.lines.len() <= usize::MAX,
            forall|i: int|
                0 <= i < self@.lines.len() ==> (#[trigger] self@.lines[i]).len() <= usize::MAX,
    {
        assert(self.rows@.len() == self.rows.len());
        assert forall|i: int| 0 <= i < self@.lines.len() implies (#[trigger] self@.lines[i]).len()
            <= usize::MAX by {
            self.rows@[i].lemma_len_fits();
        }
    }

    /// A buffer without rows and without unsaved changes.
    pub fn new() -> (buffer: TextBuffer)
        ensures
            buffer@ == (Document { lines: Seq::empty(), dirty: false }),
            buffer.wf(),
    {
        let buffer = TextBuffer { rows: Vec::new(), dirty: false };
        assert(buffer@.lines == Seq::<Seq<char>>::empty());
        buffer
    }

    /// The buffer that holds the lines of `text`, without unsaved changes.
    pub fn load(text: &str) -> (buffer: TextBuffer)
        ensures
            buffer@ == (Document { lines: split_lines(text@), dirty: false }),
            buffer.wf(),
    {
        let chars = chars_of(text);
        let mut buffer = TextBuffer::new();
        let mut start: usize = 0;
        assert(chars@.skip(0) == chars@);
        assert(buffer@.lines + split_lines(chars@) == split_lines(chars@));
        while start < chars.len()
            invariant
                start <= chars.len(),
                buffer.wf(),
                !buffer.dirty,
                split_lines(chars@) == buffer@.lines + split_lines(chars@.skip(start as int)),
            decreases chars.len() - start,
        {
            let ghost rest = chars@.skip(start as int);
            let ghost before = buffer@.lines;
            let end = line_stop(&chars, start);
            let stop: usize = if end < chars.len() && start < end && chars[end - 1] == '\r' {
                end - 1
            } else {
                end
            };
            let row = Row::from_chars(range_of(&chars, start, stop));
            buffer.rows.push(row);
            proof {
                assert(rest.take(end - start) == chars@.subrange(start as int, end as int));
                assert(buffer@.lines == before.push(row@));
                if end < chars.len() {
                    assert(rest.skip(end - start + 1) == chars@.skip(end + 1));
                    assert(row@ == strip_cr(rest.take(end - start)));
                    assert(before + (seq![row@] + split_lines(chars@.skip(end + 1)))
                        == before.push(row@) + split_lines(chars@.skip(end + 1)));
                } else {
                    assert(row@ == rest);
                    assert(split_lines(chars@.skip(end as int)) == Seq::<Seq<char>>::empty());
                    assert(before + seq![rest] == before.push(row@) + Seq::<Seq<char>>::empty());
                }
            }
            start = if end < chars.len() {
                end + 1
            } else {
                end
            };
        }
        assert(buffer@.lines + Seq::<Seq<char>>::empty() == buffer@.lines);
        buffer
    }

    /// The text of a file that holds the buffer: every row followed by one
    /// line feed.
    pub fn text(&self) -> (text: String)
        ensures
            text@ == file_text(self@.lines),
    {
        let mut text = String::new();
        let mut i: usize = 0;
        while i < self.rows.len()
            invariant
                i <= self.rows.len(),
                text@ == file_text(self@.lines.take(i as int)),
            decreases self.rows.len() - i,
        {
            proof {
                let upto = self@.lines.take(i + 1);
                assert(upto.drop_last() == self@.lines.take(i as int));
                assert(upto.last() == self.rows@[i as int]@);
            }
            self.rows[i].write_to(&mut text);
            text.push('\n');
            i += 1;
        }
        assert(self@.lines.take(i as int) == self@.lines);
        text
    }

    /// The number of rows.
    pub fn len(&self) -> (n: usize)
        ensures
            n == self@.lines.len(),
    {
        self.rows.len()
    }

    /// Whether the buffer has been changed since it was loaded or saved.
    pub fn is_dirty(&self) -> (dirty: bool)
        ensures
            dirty == self@.dirty,
    {
        self.dirty
    }

    /// Marks the buffer as free of unsaved changes, as after a save.
    pub fn mark_clean(&mut self)
        ensures
            final(self)@ == (Document { dirty: false, ..old(self)@ }),
            old(self).wf() ==> final(self).wf(),
    {
        self.dirty = false;
    }

    /// Row `i`.
    pub fn row(&self, i: usize) -> (row: &Row)
        requires
            i < self@.lines.len(),
        ensures
            row@ == self@.lines[i as int],
            self.wf() ==> row.wf(),
    {
        &self.rows[i]
    }

    /// The number of characters of row `i`; none where there is no such row.
    pub fn line_len(&self, i: usize) -> (n: usize)
        ensures
            n == self@.line_len(i as nat),
    {
        if i < self.rows.len() {
            self.rows[i].len()
        } else {
            0
        }
    }

    /// Puts `ch` into row `row` at column `col`, or at the row's end if the
    /// column lies beyond it.
    pub fn insert_char(&mut self, row: usize, col: usize, ch: char)
        requires
            old(self).wf(),
        ensures
            final(self)@ == old(self)@.insert_char(row as nat, col as nat, ch),
            final(self).wf(),
    {
        if row < self.rows.len() {
            self.rows[row].insert_char(col, ch);
            self.dirty = true;
            assert(self@.lines == old(self)@.insert_char(row as nat, col as nat, ch).lines);
        }
    }

    /// Takes out the character before column `col` of row `row`; at column 0
    /// joins the row to the one above it.
    pub fn delete_char(&mut self, row: usize, col: usize)
        requires
            old(self).wf(),
        ensures
            final(self)@ == old(self)@.delete_char(row as nat, col as nat),
            final(self).wf(),
    {
        if row >= self.rows.len() {
        } else if col == 0 {
            self.join_row(row);
        } else if col <= self.rows[row].len() {
            self.rows[row].delete_char(col - 1);
            self.dirty = true;
            assert(self@.lines == old(self)@.delete_char(row as nat, col as nat).lines);
        }
    }

    /// Adds `text` at the end of row `row`.
    pub fn append_text(&mut self, row: usize, text: &str)
        requires
            old(self).wf(),
        ensures
            final(self)@ == old(self)@.append_text(row as nat, text@),
            final(self).wf(),
    {
        if row < self.rows.len() && !text.is_empty() {
            self.rows[row].append(text);
            self.dirty = true;
            assert(self@.lines == old(self)@.append_text(row as nat, text@).lines);
        }
    }

    /// Cuts row `row` at column `col`: what follows the column becomes a new
    /// row right after it.
    pub fn split_row_at(&mut self, row: usize, col: usize)
        requires
            old(self).wf(),
        ensures
            final(self)@ == old(self)@.split_row_at(row as nat, col as nat),
            final(self).wf(),
    {
        if row < self.rows.len() {
            let rest = self.rows[row].split_off(col);
            self.rows.insert(row + 1, rest);
            self.dirty = true;
            assert(self@.lines == old(self)@.split_row_at(row as nat, col as nat).lines);
        }
    }

    /// Adds row `row` to the end of the row above it, and takes it out.
    pub fn join_row(&mut self, row: usize)
        requires
            old(self).wf(),
        ensures
            final(self)@ == old(self)@.join_row(row as nat),
            final(self).wf(),
    {
        if 0 < row && row < self.rows.len() {
            let lower = self.rows.remove(row);
            self.rows[row - 1].extend(&lower);
            self.dirty = true;
            assert(self@.lines == old(self)@.join_row(row as nat).lines);
        }
    }

    /// Puts an empty row in before row `index`, or after the last row.
    pub fn insert_blank_row(&mut self, index: usize)
        requires
            old(self).wf(),
        ensures
            final(self)@ == old(self)@.insert_blank_row(index as nat),
            final(self).wf(),
    {
        if index <= self.rows.len() {
            self.rows.insert(index, Row::empty());
            self.dirty = true;
            assert(self@.lines == old(self)@.insert_blank_row(index as nat).lines);
        }
    }
}

} // verus!
