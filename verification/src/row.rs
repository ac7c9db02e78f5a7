//! A row of text: its characters, and the display form kept beside them.

use crate::tabs::{
    expand, lemma_expand_push, lemma_render_col_bound, lemma_render_col_step, render_col, spaces,
    TAB_STOP,
};
use crate::text::{chars_of, push_all, push_range, string_of};
use vstd::prelude::*;

verus! {

/// `content` with `c` put in at index `at`; an index past the end appends.
pub open spec fn with_char(content: Seq<char>, at: nat, c: char) -> Seq<char> {
    if at >= content.len() {
        content.push(c)
    } else {
        content.insert(at as int, c)
    }
}

/// `content` without the character at index `at`; unchanged where there is
/// no such character.
pub open spec fn without_char(content: Seq<char>, at: nat) -> Seq<char> {
    if at < content.len() {
        content.remove(at as int)
    } else {
        content
    }
}

/// The first `at` characters of `content`, or all of it if it has fewer.
pub open spec fn head(content: Seq<char>, at: nat) -> Seq<char> {
    if at < content.len() {
        content.take(at as int)
    } else {
        content
    }
}

/// What follows the first `at` characters of `content`.
pub open spec fn tail(content: Seq<char>, at: nat) -> Seq<char> {
    if at < content.len() {
        content.skip(at as int)
    } else {
        Seq::empty()
    }
}

/// One line of the document. Its view is its content, a sequence of
/// characters; `rendered` is the display form that is drawn on the screen.
pub struct Row {
    buf: Vec<char>,
    render: Vec<char>,
}

impl View for Row {
    type V = Seq<char>;

    closed spec fn view(&self) -> Seq<char> {
        self.buf@
    }
}

impl Row {
    /// The display form held by the row.
    pub closed spec fn rendered(&self) -> Seq<char> {
        self.render@
    }

    /// The display form is the tab expansion of the content.
    pub open spec fn wf(&self) -> bool {
        self.rendered() == expand(self@)
    }

    /// A row's characters can be counted in a machine word, and so can the
    /// columns of its display form.
    pub proof fn lemma_len_fits(&self)
        ensures
            self@.len() <= usize::MAX,
            self.rendered().len() <= usize::MAX,
    {
        assert(self.buf@.len() == self.buf.len());
        assert(self.render@.len() == self.render.len());
    }

    /// A row holding the characters of `line`.
    pub fn new(line: &str) -> (row: Row)
        ensures
            row@ == line@,
            row.wf(),
    {
        Row::from_chars(chars_of(line))
    }

    /// A row holding `chars`.
    pub fn from_chars(chars: Vec<char>) -> (row: Row)
        ensures
            row@ == chars@,
            row.wf(),
    {
        let mut row = Row { buf: chars, render: Vec::new() };
        row.update_render();
        row
    }

    /// A row without characters.
    pub fn empty() -> (row: Row)
        ensures
            row@ == Seq::<char>::empty(),
            row.wf(),
    {
        Row { buf: Vec::new(), render: Vec::new() }
    }

    /// Derives the display form anew from the content.
    pub fn update_render(&mut self)
        ensures
            final(self)@ == old(self)@,
            final(self).wf(),
    {
        let mut render: Vec<char> = Vec::new();
        let mut i: usize = 0;
        while i < self.buf.len()
            invariant
                i <= self.buf.len(),
                self.buf@ == old(self).buf@,
                render@ == expand(self.buf@.take(i as int)),
            decreases self.buf.len() - i,
        {
            let c = self.buf[i];
            proof {
                assert(self.buf@.take(i + 1) == self.buf@.take(i as int).push(c));
                lemma_expand_push(self.buf@.take(i as int), c);
            }
            if c == '\t' {
                let ghost before = render@;
                let pad: usize = TAB_STOP - render.len() % TAB_STOP;
                let mut k: usize = 0;
                while k < pad
                    invariant
                        k <= pad,
                        render@ == before + spaces(k as nat),
                    decreases pad - k,
                {
                    render.push(' ');
                    k += 1;
                }
            } else {
                render.push(c);
            }
            i += 1;
        }
        assert(self.buf@.take(i as int) == self.buf@);
        self.render = render;
    }

    /// The display column of the character index `cx`.
    pub fn rx_from_cx(&self, cx: usize) -> (rx: usize)
        requires
            self.wf(),
        ensures
            rx == render_col(self@, cx as nat),
    {
        let stop: usize = if cx < self.buf.len() {
            cx
        } else {
            self.buf.len()
        };
        let mut rx: usize = 0;
        let mut i: usize = 0;
        while i < stop
            invariant
                i <= stop <= self.buf.len(),
                self.wf(),
                rx == render_col(self@, i as nat),
            decreases stop - i,
        {
            proof {
                lemma_render_col_step(self@, i as nat);
                lemma_render_col_bound(self@, (i + 1) as nat);
                assert(self.render@.len() == self.render.len());
            }
            if self.buf[i] == '\t' {
                rx = rx + (TAB_STOP - rx % TAB_STOP);
            } else {
                rx = rx + 1;
            }
            i += 1;
        }
        rx
    }

    /// Puts `c` in at index `at`; an index past the end appends.
    pub fn insert_char(&mut self, at: usize, c: char)
        ensures
            final(self)@ == with_char(old(self)@, at as nat, c),
            final(self).wf(),
    {
        if self.buf.len() <= at {
            self.buf.push(c);
        } else {
            self.buf.insert(at, c);
        }
        self.update_render();
    }

    /// Takes out the character at index `at`, if there is one.
    pub fn delete_char(&mut self, at: usize)
        requires
            old(self).wf(),
        ensures
            final(self)@ == without_char(old(self)@, at as nat),
            final(self).wf(),
    {
        if at < self.buf.len() {
            self.buf.remove(at);
            self.update_render();
        }
    }

    /// Adds the characters of `text` at the end.
    pub fn append(&mut self, text: &str)
        requires
            old(self).wf(),
        ensures
            final(self)@ == old(self)@ + text@,
            final(self).wf(),
    {
        if text.is_empty() {
            assert(old(self)@ + text@ == old(self)@);
            return ;
        }
        let chars = chars_of(text);
        push_all(&mut self.buf, &chars);
        self.update_render();
    }

    /// Adds the content of `other` at the end.
    pub fn extend(&mut self, other: &Row)
        requires
            old(self).wf(),
        ensures
            final(self)@ == old(self)@ + other@,
            final(self).wf(),
    {
        if other.buf.len() == 0 {
            assert(old(self)@ + other@ == old(self)@);
            return ;
        }
        push_all(&mut self.buf, &other.buf);
        self.update_render();
    }

    /// Keeps the first `at` characters; a row that has no more is left as it
    /// is.
    pub fn truncate(&mut self, at: usize)
        requires
            old(self).wf(),
        ensures
            final(self)@ == head(old(self)@, at as nat),
            final(self).wf(),
    {
        if at < self.buf.len() {
            self.buf.truncate(at);
            self.update_render();
        }
    }

    /// Keeps the first `at` characters and hands back the rest as a row of
    /// its own.
    pub fn split_off(&mut self, at: usize) -> (rest: Row)
        requires
            old(self).wf(),
        ensures
            final(self)@ == head(old(self)@, at as nat),
            rest@ == tail(old(self)@, at as nat),
            final(self).wf(),
            rest.wf(),
    {
        if at < self.buf.len() {
            let chars = self.buf.split_off(at);
            self.update_render();
            Row::from_chars(chars)
        } else {
            Row::empty()
        }
    }

    /// The number of characters.
    pub fn len(&self) -> (n: usize)
        ensures
            n == self@.len(),
    {
        self.buf.len()
    }

    /// The width of the display form, in columns.
    pub fn render_len(&self) -> (n: usize)
        ensures
            n == self.rendered().len(),
    {
        self.render.len()
    }

    /// Adds the content at the end of `out`.
    pub fn write_to(&self, out: &mut String)
        ensures
            final(out)@ == old(out)@ + self@,
    {
        push_range(out, &self.buf, 0, self.buf.len());
        assert(self.buf@.subrange(0, self.buf@.len() as int) == self.buf@);
    }

    /// Adds the display columns from `from` up to `to` at the end of `out`.
    pub fn write_render(&self, out: &mut String, from: usize, to: usize)
        requires
            from <= to <= self.rendered().len(),
        ensures
            final(out)@ == old(out)@ + self.rendered().subrange(from as int, to as int),
    {
        push_range(out, &self.render, from, to);
    }

    /// The content as a string.
    pub fn text(&self) -> (s: String)
        ensures
            s@ == self@,
    {
        string_of(&self.buf)
    }

    /// The display form as a string.
    pub fn render_text(&self) -> (s: String)
        ensures
            s@ == self.rendered(),
    {
        string_of(&self.render)
    }
}

} // verus!
