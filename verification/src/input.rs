//! Decoding the terminal's byte stream into input events.
//!
//! The decoder is a state machine that never reads by itself. Its driver asks
//! it where the next byte comes from (`InputDecoder::source`), fetches that
//! byte, and hands it to `InputDecoder::decode`, which answers with an event
//! once one is complete.

use crate::ascii::{
    DIGIT_0, DIGIT_1, DIGIT_3, DIGIT_4, DIGIT_5, DIGIT_6, DIGIT_7, DIGIT_8, DIGIT_9, ESCAPE,
    LEFT_BRACKET, PLUS, SEMICOLON, TILDE, UPPER_A, UPPER_B, UPPER_C, UPPER_D, UPPER_F, UPPER_H,
    UPPER_O, UPPER_R,
};
use vstd::prelude::*;

verus! {

/// An input event.
#[derive(PartialEq, Eq, Structural, Clone, Copy, Debug)]
pub enum InputSeq {
    /// Bytes that stand for nothing the editor knows.
    Unidentified,
    /// A key: its byte and whether Ctrl was held. With Ctrl the byte is the
    /// lower-case letter of the key.
    Key(u8, bool),
    LeftKey,
    RightKey,
    UpKey,
    DownKey,
    PageUpKey,
    PageDownKey,
    HomeKey,
    EndKey,
    DeleteKey,
    /// The terminal's report of the cursor position: row, then column.
    Cursor(usize, usize),
}

/// Where the decoder is within a sequence.
#[derive(PartialEq, Eq, Structural, Clone, Copy, Debug)]
pub enum Mode {
    /// Between sequences.
    Ground,
    /// An Escape byte has been read.
    Escape,
    /// `ESC [` has been read; parameter bytes are being gathered.
    Csi,
    /// Within the parameter bytes, an `O` has just been read.
    CsiAlt,
}

/// Where the byte for the next call of `InputDecoder::decode` comes from.
#[derive(PartialEq, Eq, Structural, Clone, Copy, Debug)]
pub enum Source {
    /// The decoder holds the byte already: nothing is to be read.
    Pushback,
    /// One read that waits a short, bounded time and may yield nothing.
    Timed,
    /// Reads repeated until a byte arrives.
    Blocking,
}

/// The state of a decoder: its mode, the byte it has pushed back, and the
/// parameter bytes gathered so far.
pub struct DecoderState {
    pub mode: Mode,
    pub pushback: Option<u8>,
    pub params: Seq<u8>,
}

/// The event for a byte that stands alone: a printable byte is a plain key, a
/// control byte is the key of its lower-case letter with Ctrl, and any other
/// byte is unidentified.
pub open spec fn plain_key(b: u8) -> InputSeq {
    if 0x20 <= b <= 0x7f {
        InputSeq::Key(b, false)
    } else if 0x01 <= b <= 0x1f {
        InputSeq::Key(b | 0x60, true)
    } else {
        InputSeq::Unidentified
    }
}

/// The bytes that end a control sequence: `A B C D F H R ~`.
pub open spec fn is_final(b: u8) -> bool {
    b == UPPER_A || b == UPPER_B || b == UPPER_C || b == UPPER_D || b == UPPER_F || b == UPPER_H
        || b == UPPER_R || b == TILDE
}

/// The length of the first `;`-separated field of `s`.
pub open spec fn field_end(s: Seq<u8>) -> nat
    decreases s.len(),
{
    if s.len() == 0 || s[0] == SEMICOLON {
        0
    } else {
        1 + field_end(s.skip(1))
    }
}

/// The first `;`-separated field of `s`.
pub open spec fn first_field(s: Seq<u8>) -> Seq<u8> {
    s.take(field_end(s) as int)
}

/// The second `;`-separated field of `s`, if `s` holds a `;`.
pub open spec fn second_field(s: Seq<u8>) -> Option<Seq<u8>> {
    if field_end(s) < s.len() {
        Some(first_field(s.skip(field_end(s) as int + 1)))
    } else {
        None
    }
}

pub open spec fn is_digit(b: u8) -> bool {
    DIGIT_0 <= b <= DIGIT_9
}

pub open spec fn all_digits(d: Seq<u8>) -> bool {
    forall|i: int| 0 <= i < d.len() ==> is_digit(#[trigger] d[i])
}

/// The number that the decimal digits `d` write.
pub open spec fn digits_value(d: Seq<u8>) -> nat
    decreases d.len(),
{
    if d.len() == 0 {
        0
    } else {
        digits_value(d.drop_last()) * 10 + (d.last() - DIGIT_0) as nat
    }
}

/// A field read as an unsigned number: decimal digits, at least one, which
/// may follow one plus sign, and whose value fits the machine word.
pub open spec fn unsigned(field: Seq<u8>) -> Option<usize> {
    let d = if field.len() > 0 && field[0] == PLUS {
        field.skip(1)
    } else {
        field
    };
    if d.len() > 0 && all_digits(d) && digits_value(d) <= usize::MAX {
        Some(digits_value(d) as usize)
    } else {
        None
    }
}

/// The key that a sequence ending in `~` stands for, by its first field.
pub open spec fn tilde_key(field: Seq<u8>) -> InputSeq {
    if field.len() != 1 {
        InputSeq::Unidentified
    } else if field[0] == DIGIT_5 {
        InputSeq::PageUpKey
    } else if field[0] == DIGIT_6 {
        InputSeq::PageDownKey
    } else if field[0] == DIGIT_1 || field[0] == DIGIT_7 {
        InputSeq::HomeKey
    } else if field[0] == DIGIT_4 || field[0] == DIGIT_8 {
        InputSeq::EndKey
    } else if field[0] == DIGIT_3 {
        InputSeq::DeleteKey
    } else {
        InputSeq::Unidentified
    }
}

/// The cursor report that the parameter bytes hold: two numbers in the first
/// two fields.
pub open spec fn cursor_report(params: Seq<u8>) -> InputSeq {
    match (unsigned(first_field(params)), second_field(params)) {
        (Some(row), Some(second)) => match unsigned(second) {
            Some(col) => InputSeq::Cursor(row, col),
            None => InputSeq::Unidentified,
        },
        _ => InputSeq::Unidentified,
    }
}

/// The event of a control sequence with the parameter bytes `params` and the
/// final byte `cmd`.
pub open spec fn csi_event(params: Seq<u8>, cmd: u8) -> InputSeq {
    if cmd == UPPER_A {
        InputSeq::UpKey
    } else if cmd == UPPER_B {
        InputSeq::DownKey
    } else if cmd == UPPER_C {
        InputSeq::RightKey
    } else if cmd == UPPER_D {
        InputSeq::LeftKey
    } else if cmd == UPPER_H {
        InputSeq::HomeKey
    } else if cmd == UPPER_F {
        InputSeq::EndKey
    } else if cmd == TILDE {
        tilde_key(first_field(params))
    } else if cmd == UPPER_R {
        cursor_report(params)
    } else {
        InputSeq::Unidentified
    }
}

/// A decoder at rest.
pub open spec fn ground() -> DecoderState {
    DecoderState { mode: Mode::Ground, pushback: None, params: Seq::empty() }
}

/// Where the next byte comes from in state `s`.
pub open spec fn source_of(s: DecoderState) -> Source {
    if s.pushback is Some {
        Source::Pushback
    } else if s.mode == Mode::Escape {
        Source::Timed
    } else {
        Source::Blocking
    }
}

/// One step of the decoder: from the state `s` and what was read (`None`
/// where the read yielded nothing) to the next state and the event that is
/// complete, if one is. A byte that was pushed back is taken before `read`.
pub open spec fn step(s: DecoderState, read: Option<u8>) -> (DecoderState, Option<InputSeq>) {
    let input = if s.pushback is Some {
        s.pushback
    } else {
        read
    };
    match input {
        None => if s.mode == Mode::Escape {
            (ground(), Some(InputSeq::Key(ESCAPE, false)))
        } else {
            (DecoderState { pushback: None, ..s }, None)
        },
        Some(b) => match s.mode {
            Mode::Ground => if b == ESCAPE {
                (DecoderState { mode: Mode::Escape, pushback: None, params: Seq::empty() }, None)
            } else {
                (ground(), Some(plain_key(b)))
            },
            Mode::Escape => if b == LEFT_BRACKET {
                (DecoderState { mode: Mode::Csi, pushback: None, params: Seq::empty() }, None)
            } else {
                (
                    DecoderState { mode: Mode::Ground, pushback: Some(b), params: Seq::empty() },
                    Some(InputSeq::Key(ESCAPE, false)),
                )
            },
            Mode::Csi => if is_final(b) {
                (ground(), Some(csi_event(s.params, b)))
            } else if b == UPPER_O {
                (
                    DecoderState { mode: Mode::CsiAlt, pushback: None, params: s.params.push(b) },
                    None,
                )
            } else {
                (DecoderState { mode: Mode::Csi, pushback: None, params: s.params.push(b) }, None)
            },
            Mode::CsiAlt => if b == UPPER_F || b == UPPER_H {
                (ground(), Some(csi_event(s.params, b)))
            } else {
                (DecoderState { mode: Mode::Csi, pushback: None, params: s.params.push(b) }, None)
            },
        },
    }
}

/// The first field ends at the first `;`, or at the end where there is none.
pub proof fn lemma_field_end(s: Seq<u8>)
    ensures
        field_end(s) <= s.len(),
        forall|i: int| 0 <= i < field_end(s) ==> s[i] != SEMICOLON,
        field_end(s) < s.len() ==> s[field_end(s) as int] == SEMICOLON,
    decreases s.len(),
{
    if s.len() == 0 || s[0] == SEMICOLON {
    } else {
        let rest = s.skip(1);
        lemma_field_end(rest);
        assert forall|i: int| 0 <= i < field_end(s) implies s[i] != SEMICOLON by {
            if i > 0 {
                assert(s[i] == rest[i - 1]);
            }
        }
        if field_end(s) < s.len() {
            assert(s[field_end(s) as int] == rest[field_end(rest) as int]);
        }
    }
}

/// The digits of a prefix write no greater a number than all the digits.
proof fn lemma_digits_value_prefix(d: Seq<u8>, k: int)
    requires
        0 <= k <= d.len(),
    ensures
        digits_value(d.take(k)) <= digits_value(d),
    decreases d.len() - k,
{
    if k == d.len() {
        assert(d.take(k) == d);
    } else {
        lemma_digits_value_prefix(d, k + 1);
        assert(d.take(k + 1).drop_last() == d.take(k));
    }
}

/// The index at which the field that starts at `start` ends.
fn field_stop(buf: &Vec<u8>, start: usize) -> (end: usize)
    requires
        start <= buf.len(),
    ensures
        start <= end <= buf.len(),
        end - start == field_end(buf@.skip(start as int)),
{
    let mut end: usize = start;
    while end < buf.len() && buf[end] != SEMICOLON
        invariant
            start <= end <= buf.len(),
            field_end(buf@.skip(start as int)) == (end - start) + field_end(buf@.skip(end as int)),
        decreases buf.len() - end,
    {
        assert(buf@.skip(end as int).skip(1) == buf@.skip(end + 1));
        end += 1;
    }
    end
}

/// Reads the bytes of `buf` from `from` up to `to` as an unsigned number.
#[verifier::loop_isolation(false)]
fn parse_unsigned(buf: &Vec<u8>, from: usize, to: usize) -> (n: Option<usize>)
    requires
        from <= to <= buf.len(),
    ensures
        n == unsigned(buf@.subrange(from as int, to as int)),
{
    let ghost field = buf@.subrange(from as int, to as int);
    let first: usize = if from < to && buf[from] == PLUS {
        from + 1
    } else {
        from
    };
    let ghost d = buf@.subrange(first as int, to as int);
    assert(d == if field.len() > 0 && field[0] == PLUS {
        field.skip(1)
    } else {
        field
    });
    if first == to {
        return None;
    }
    let mut value: usize = 0;
    let mut i: usize = first;
    while i < to
        invariant
            first <= i <= to <= buf.len(),
            d == buf@.subrange(first as int, to as int),
            all_digits(d.take(i - first)),
            value == digits_value(d.take(i - first)),
        decreases to - i,
    {
        let b = buf[i];
        assert(b == d[i - first]);
        if b < DIGIT_0 || b > DIGIT_9 {
            assert(!is_digit(d[i - first]));
            return None;
        }
        proof {
            assert(d.take(i - first + 1).drop_last() == d.take(i - first));
            assert(d.take(i - first + 1).last() == b);
            lemma_digits_value_prefix(d, i - first + 1);
            assert(digits_value(d.take(i - first + 1)) == value * 10 + (b - DIGIT_0));
        }
        let tens = match value.checked_mul(10) {
            Some(t) => t,
            None => { return None; },
        };
        value = match tens.checked_add((b - DIGIT_0) as usize) {
            Some(v) => v,
            None => { return None; },
        };
        i += 1;
    }
    assert(d.take(i - first) == d);
    Some(value)
}

/// The event of a control sequence, from its parameter bytes and its final
/// byte.
pub fn decode_csi(params: &Vec<u8>, cmd: u8) -> (seq: InputSeq)
    ensures
        seq == csi_event(params@, cmd),
{
    if cmd == UPPER_A {
        InputSeq::UpKey
    } else if cmd == UPPER_B {
        InputSeq::DownKey
    } else if cmd == UPPER_C {
        InputSeq::RightKey
    } else if cmd == UPPER_D {
        InputSeq::LeftKey
    } else if cmd == UPPER_H {
        InputSeq::HomeKey
    } else if cmd == UPPER_F {
        InputSeq::EndKey
    } else if cmd == TILDE {
        let end = field_stop(params, 0);
        assert(params@.skip(0) == params@);
        if end != 1 {
            return InputSeq::Unidentified;
        }
        let b = params[0];
        if b == DIGIT_5 {
            InputSeq::PageUpKey
        } else if b == DIGIT_6 {
            InputSeq::PageDownKey
        } else if b == DIGIT_1 || b == DIGIT_7 {
            InputSeq::HomeKey
        } else if b == DIGIT_4 || b == DIGIT_8 {
            InputSeq::EndKey
        } else if b == DIGIT_3 {
            InputSeq::DeleteKey
        } else {
            InputSeq::Unidentified
        }
    } else if cmd == UPPER_R {
        let end = field_stop(params, 0);
        assert(params@.skip(0) == params@);
        assert(params@.subrange(0, end as int) == first_field(params@));
        let row = parse_unsigned(params, 0, end);
        if end == params.len() {
            return InputSeq::Unidentified;
        }
        let start = end + 1;
        let stop = field_stop(params, start);
        assert(params@.subrange(start as int, stop as int) == first_field(
            params@.skip(start as int),
        ));
        let col = parse_unsigned(params, start, stop);
        match (row, col) {
            (Some(r), Some(c)) => InputSeq::Cursor(r, c),
            _ => InputSeq::Unidentified,
        }
    } else {
        InputSeq::Unidentified
    }
}

/// The decoder of the terminal's bytes.
pub struct InputDecoder {
    mode: Mode,
    next_byte: Option<u8>,
    params: Vec<u8>,
}

impl View for InputDecoder {
    type V = DecoderState;

    closed spec fn view(&self) -> DecoderState {
        DecoderState { mode: self.mode, pushback: self.next_byte, params: self.params@ }
    }
}

impl InputDecoder {
    /// A decoder at rest.
    pub fn new() -> (decoder: InputDecoder)
        ensures
            decoder@ == ground(),
    {
        InputDecoder { mode: Mode::Ground, next_byte: None, params: Vec::new() }
    }

    /// Where the byte for the next call of `decode` comes from.
    pub fn source(&self) -> (source: Source)
        ensures
            source == source_of(self@),
    {
        if self.next_byte.is_some() {
            Source::Pushback
        } else if self.mode == Mode::Escape {
            Source::Timed
        } else {
            Source::Blocking
        }
    }

    /// Takes what was read, `None` where the read yielded nothing, and
    /// answers with the event that it completes, if it completes one.
    pub fn decode(&mut self, read: Option<u8>) -> (seq: Option<InputSeq>)
        ensures
            (final(self)@, seq) == step(old(self)@, read),
    {
        let input = if self.next_byte.is_some() {
            self.next_byte
        } else {
            read
        };
        self.next_byte = None;
        let b = match input {
            Some(b) => b,
            None => {
                if self.mode == Mode::Escape {
                    self.mode = Mode::Ground;
                    self.params = Vec::new();
                    return Some(InputSeq::Key(ESCAPE, false));
                }
                return None;
            },
        };
        match self.mode {
            Mode::Ground => {
                self.params = Vec::new();
                if b == ESCAPE {
                    self.mode = Mode::Escape;
                    None
                } else if 0x20 <= b && b <= 0x7f {
                    Some(InputSeq::Key(b, false))
                } else if 0x01 <= b && b <= 0x1f {
                    Some(InputSeq::Key(b | 0x60, true))
                } else {
                    Some(InputSeq::Unidentified)
                }
            },
            Mode::Escape => {
                self.params = Vec::new();
                if b == LEFT_BRACKET {
                    self.mode = Mode::Csi;
                    None
                } else {
                    self.mode = Mode::Ground;
                    self.next_byte = Some(b);
                    Some(InputSeq::Key(ESCAPE, false))
                }
            },
            Mode::Csi => {
                if b == UPPER_A || b == UPPER_B || b == UPPER_C || b == UPPER_D || b == UPPER_F
                    || b == UPPER_H || b == UPPER_R || b == TILDE {
                    self.finish(b)
                } else {
                    self.mode = if b == UPPER_O {
                        Mode::CsiAlt
                    } else {
                        Mode::Csi
                    };
                    self.params.push(b);
                    None
                }
            },
            Mode::CsiAlt => {
                if b == UPPER_F || b == UPPER_H {
                    self.finish(b)
                } else {
                    self.mode = Mode::Csi;
                    self.params.push(b);
                    None
                }
            },
        }
    }

    /// Ends the control sequence with the final byte `cmd`.
    fn finish(&mut self, cmd: u8) -> (seq: Option<InputSeq>)
        ensures
            final(self)@ == ground(),
            seq == Some(csi_event(old(self)@.params, cmd)),
    {
        let seq = decode_csi(&self.params, cmd);
        self.mode = Mode::Ground;
        self.next_byte = None;
        self.params = Vec::new();
        Some(seq)
    }
}

} // verus!
