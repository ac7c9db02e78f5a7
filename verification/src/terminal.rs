//! The terminal's line mode, and the raw mode in which the editor reads.
//!
//! The flag words, and the bits that stand for a feature in them, differ from
//! system to system: the driver reads both from the system, and writes back
//! the mode that `raw_mode` makes of them.

use vstd::prelude::*;

verus! {

/// The mode of a terminal line.
#[derive(PartialEq, Eq, Structural, Clone, Copy, Debug)]
pub struct LineMode {
    /// The flags of input processing.
    pub input: u64,
    /// The flags of output processing.
    pub output: u64,
    /// The flags of the line's control.
    pub control: u64,
    /// The flags of the line discipline.
    pub local: u64,
    /// The number of bytes that a read waits for.
    pub min_bytes: u8,
    /// The time that a read waits at most, in tenths of a second.
    pub timeout: u8,
}

/// The bits that stand for the features which raw mode sets or clears, each
/// in the flag word that holds it.
#[derive(PartialEq, Eq, Structural, Clone, Copy, Debug)]
pub struct ModeBits {
    /// In the local flags: typed characters are echoed.
    pub echo: u64,
    /// In the local flags: input comes line by line.
    pub canonical: u64,
    /// In the local flags: keys raise signals.
    pub signals: u64,
    /// In the local flags: extended input processing.
    pub extended: u64,
    /// In the input flags: software flow control.
    pub flow_control: u64,
    /// In the input flags: carriage returns are read as line feeds.
    pub cr_to_nl: u64,
    /// In the input flags: a break raises a signal.
    pub break_signal: u64,
    /// In the input flags: parity is checked.
    pub parity_check: u64,
    /// In the input flags: the eighth bit is stripped.
    pub strip: u64,
    /// In the output flags: output is processed.
    pub post_process: u64,
    /// In the control flags: characters have eight bits.
    pub eight_bits: u64,
}

impl ModeBits {
    /// The bits that raw mode clears in the input flags.
    pub open spec fn input_off(self) -> u64 {
        self.flow_control | self.cr_to_nl | self.break_signal | self.parity_check | self.strip
    }

    /// The bits that raw mode clears in the local flags.
    pub open spec fn local_off(self) -> u64 {
        self.echo | self.canonical | self.signals | self.extended
    }
}

/// Raw mode, made of the mode `mode`: no echo, no line buffering, no signals
/// from keys, no extended input; no flow control, no translation of carriage
/// returns, no signal on a break, no parity check, no stripping; no processing
/// of the output; characters of eight bits; and a read returns after a tenth
/// of a second even where no byte has come. All other flags stay.
pub open spec fn raw(mode: LineMode, bits: ModeBits) -> LineMode {
    LineMode {
        input: mode.input & !bits.input_off(),
        output: mode.output & !bits.post_process,
        control: mode.control | bits.eight_bits,
        local: mode.local & !bits.local_off(),
        min_bytes: 0,
        timeout: 1,
    }
}

/// In raw mode every feature that it turns off is off.
pub proof fn lemma_raw_turns_off(mode: LineMode, bits: ModeBits)
    ensures
        raw(mode, bits).local & bits.echo == 0,
        raw(mode, bits).local & bits.canonical == 0,
        raw(mode, bits).local & bits.signals == 0,
        raw(mode, bits).local & bits.extended == 0,
        raw(mode, bits).input & bits.flow_control == 0,
        raw(mode, bits).input & bits.cr_to_nl == 0,
        raw(mode, bits).input & bits.break_signal == 0,
        raw(mode, bits).input & bits.parity_check == 0,
        raw(mode, bits).input & bits.strip == 0,
        raw(mode, bits).output & bits.post_process == 0,
        raw(mode, bits).control & bits.eight_bits == bits.eight_bits,
{
    let word = mode.local;
    let (a, b, c, d) = (bits.echo, bits.canonical, bits.signals, bits.extended);
    assert((word & !(a | b | c | d)) & a == 0) by (bit_vector);
    assert((word & !(a | b | c | d)) & b == 0) by (bit_vector);
    assert((word & !(a | b | c | d)) & c == 0) by (bit_vector);
    assert((word & !(a | b | c | d)) & d == 0) by (bit_vector);
    let word = mode.input;
    let (a, b, c) = (bits.flow_control, bits.cr_to_nl, bits.break_signal);
    let (d, e) = (bits.parity_check, bits.strip);
    assert((word & !(a | b | c | d | e)) & a == 0) by (bit_vector);
    assert((word & !(a | b | c | d | e)) & b == 0) by (bit_vector);
    assert((word & !(a | b | c | d | e)) & c == 0) by (bit_vector);
    assert((word & !(a | b | c | d | e)) & d == 0) by (bit_vector);
    assert((word & !(a | b | c | d | e)) & e == 0) by (bit_vector);
    let (word, a) = (mode.output, bits.post_process);
    assert((word & !a) & a == 0) by (bit_vector);
    let (word, a) = (mode.control, bits.eight_bits);
    assert((word | a) & a == a) by (bit_vector);
}

/// Raw mode leaves every flag as it was that it does not set or clear.
pub proof fn lemma_raw_keeps_the_rest(mode: LineMode, bits: ModeBits, flag: u64)
    ensures
        flag & bits.local_off() == 0 ==> raw(mode, bits).local & flag == mode.local & flag,
        flag & bits.input_off() == 0 ==> raw(mode, bits).input & flag == mode.input & flag,
        flag & bits.post_process == 0 ==> raw(mode, bits).output & flag == mode.output & flag,
        flag & bits.eight_bits == 0 ==> raw(mode, bits).control & flag == mode.control & flag,
{
    let (word, off) = (mode.local, bits.local_off());
    assert(flag & off == 0 ==> (word & !off) & flag == word & flag) by (bit_vector);
    let (word, off) = (mode.input, bits.input_off());
    assert(flag & off == 0 ==> (word & !off) & flag == word & flag) by (bit_vector);
    let (word, off) = (mode.output, bits.post_process);
    assert(flag & off == 0 ==> (word & !off) & flag == word & flag) by (bit_vector);
    let (word, on) = (mode.control, bits.eight_bits);
    assert(flag & on == 0 ==> (word | on) & flag == word & flag) by (bit_vector);
}

/// Raw mode, made of the mode `mode`.
pub fn raw_mode(mode: LineMode, bits: ModeBits) -> (made: LineMode)
    ensures
        made == raw(mode, bits),
{
    LineMode {
        input: mode.input & !(bits.flow_control | bits.cr_to_nl | bits.break_signal
            | bits.parity_check | bits.strip),
        output: mode.output & !bits.post_process,
        control: mode.control | bits.eight_bits,
        local: mode.local & !(bits.echo | bits.canonical | bits.signals | bits.extended),
        min_bytes: 0,
        timeout: 1,
    }
}

} // verus!
