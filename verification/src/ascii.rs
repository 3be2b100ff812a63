//! The ASCII characters that the notation of JSON is made of, as bytes.

use vstd::prelude::*;

verus! {

pub const PLUS: u8 = 43;

pub const COMMA: u8 = 44;

pub const MINUS: u8 = 45;

pub const POINT: u8 = 46;

pub const ZERO: u8 = 48;

pub const NINE: u8 = 57;

pub const COLON: u8 = 58;

pub const UPPER_E: u8 = 69;

pub const OPEN_BRACKET: u8 = 91;

pub const CLOSE_BRACKET: u8 = 93;

pub const LOWER_E: u8 = 101;

pub const OPEN_BRACE: u8 = 123;

pub const CLOSE_BRACE: u8 = 125;

} // verus!
