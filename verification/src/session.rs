//! The command loop, one cycle at a time.
//!
//! The driver reads an input event, hands it to `Editor::run` with the time,
//! and does what the answer says: nothing, end the session, or write the
//! file, if there is one to write, and then the frame.

use crate::editor::{action_of, Action, CursorDir, Editor, EditorState, FileWrite, Outcome};
use crate::input::InputSeq;
use crate::status::Nanos;
use vstd::prelude::*;

verus! {

/// What a cycle of the command loop leaves for the driver to do.
#[derive(Debug)]
pub enum Cycle {
    /// Nothing: the event was no key.
    Skip,
    /// End the session.
    Quit,
    /// Write the file, if there is one, then show the frame.
    Redraw { frame: String, write: Option<FileWrite> },
}

impl EditorState {
    /// The editor after one cycle of the command loop on the input event
    /// `seq` at the time `now`: after a key that does not end the session,
    /// the key is taken and the window follows the cursor.
    pub open spec fn run(self, seq: InputSeq, now: Nanos) -> EditorState {
        if action_of(seq) == Action::Ignore || self.quits(action_of(seq)) {
            self
        } else {
            self.process_keypress(seq, now).setup_scroll()
        }
    }
}

/// Moves of the cursor change nothing but the cursor.
pub proof fn lemma_moves_keep_window(s: EditorState, dir: CursorDir, n: nat)
    ensures
        s.move_times(dir, n).screen_rows == s.screen_rows,
        s.move_times(dir, n).screen_cols == s.screen_cols,
        s.move_times(dir, n).rowoff == s.rowoff,
        s.move_times(dir, n).coloff == s.coloff,
        s.move_times(dir, n).doc == s.doc,
    decreases n,
{
    if n > 0 {
        lemma_moves_keep_window(s, dir, (n - 1) as nat);
    }
}

/// A key press leaves the window's size and its offsets as they are.
pub proof fn lemma_keypress_keeps_window(s: EditorState, seq: InputSeq, now: Nanos)
    ensures
        s.process_keypress(seq, now).screen_rows == s.screen_rows,
        s.process_keypress(seq, now).screen_cols == s.screen_cols,
        s.process_keypress(seq, now).rowoff == s.rowoff,
        s.process_keypress(seq, now).coloff == s.coloff,
{
    let top = EditorState {
        cy: if s.rowoff < s.row_count() {
            s.rowoff
        } else {
            s.row_count()
        },
        ..s
    };
    lemma_moves_keep_window(top, CursorDir::Up, s.screen_rows);
    let last = if s.rowoff + s.screen_rows >= 1 {
        (s.rowoff + s.screen_rows - 1) as nat
    } else {
        0
    };
    let bottom = EditorState {
        cy: if last < s.row_count() {
            last
        } else {
            s.row_count()
        },
        ..s
    };
    lemma_moves_keep_window(bottom, CursorDir::Down, s.screen_rows);
}

impl Editor {
    /// Runs one cycle of the command loop on the input event `seq` at the
    /// time `now`. An event that is no key is skipped. A key that ends the
    /// session is answered with `Quit`. Any other key is taken, the window
    /// follows the cursor, and the screen is drawn anew.
    pub fn run(&mut self, seq: InputSeq, now: Nanos) -> (cycle: Cycle)
        requires
            old(self).wf(),
            old(self)@.has_window(),
        ensures
            final(self)@ == old(self)@.run(seq, now),
            final(self).wf(),
            final(self)@.has_window(),
            match cycle {
                Cycle::Skip => action_of(seq) == Action::Ignore,
                Cycle::Quit => old(self)@.quits(action_of(seq)),
                Cycle::Redraw { frame, write } => {
                    &&& action_of(seq) != Action::Ignore
                    &&& !old(self)@.quits(action_of(seq))
                    &&& final(self)@.in_view()
                    &&& frame@ == final(self)@.frame(now)
                    &&& match write {
                        Some(w) => action_of(seq) == Action::Save && old(self)@.file_image()
                            == Some(w@),
                        None => !(action_of(seq) == Action::Save && old(self)@.file_image()
                            is Some),
                    }
                },
            },
    {
        match seq {
            InputSeq::Unidentified => {
                return Cycle::Skip;
            },
            InputSeq::Cursor(_, _) => {
                return Cycle::Skip;
            },
            _ => {},
        }
        proof {
            lemma_keypress_keeps_window(self@, seq, now);
        }
        let write = match self.process_keypress(seq, now) {
            Outcome::Quit => {
                return Cycle::Quit;
            },
            Outcome::Write(w) => Some(w),
            Outcome::Continue => None,
        };
        self.setup_scroll();
        let frame = self.refresh_screen(now);
        Cycle::Redraw { frame, write }
    }
}

} // verus!
