//! The bytes of ASCII that the editor knows by name.

use vstd::prelude::*;

verus! {

pub const BACKSPACE: u8 = 0x08;

pub const CARRIAGE_RETURN: u8 = 0x0d;

pub const ESCAPE: u8 = 0x1b;

pub const PLUS: u8 = 0x2b;

pub const DIGIT_0: u8 = 0x30;

pub const DIGIT_1: u8 = 0x31;

pub const DIGIT_3: u8 = 0x33;

pub const DIGIT_4: u8 = 0x34;

pub const DIGIT_5: u8 = 0x35;

pub const DIGIT_6: u8 = 0x36;

pub const DIGIT_7: u8 = 0x37;

pub const DIGIT_8: u8 = 0x38;

pub const DIGIT_9: u8 = 0x39;

pub const SEMICOLON: u8 = 0x3b;

pub const UPPER_A: u8 = 0x41;

pub const UPPER_B: u8 = 0x42;

pub const UPPER_C: u8 = 0x43;

pub const UPPER_D: u8 = 0x44;

pub const UPPER_F: u8 = 0x46;

pub const UPPER_H: u8 = 0x48;

pub const UPPER_O: u8 = 0x4f;

pub const UPPER_R: u8 = 0x52;

pub const LEFT_BRACKET: u8 = 0x5b;

pub const LOWER_A: u8 = 0x61;

pub const LOWER_B: u8 = 0x62;

pub const LOWER_D: u8 = 0x64;

pub const LOWER_E: u8 = 0x65;

pub const LOWER_F: u8 = 0x66;

pub const LOWER_H: u8 = 0x68;

pub const LOWER_M: u8 = 0x6d;

pub const LOWER_N: u8 = 0x6e;

pub const LOWER_P: u8 = 0x70;

pub const LOWER_Q: u8 = 0x71;

pub const LOWER_S: u8 = 0x73;

pub const TILDE: u8 = 0x7e;

pub const DELETE: u8 = 0x7f;

} // verus!
