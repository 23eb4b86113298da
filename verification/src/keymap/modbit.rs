//! Bits in the HID report's modifier byte.
use vstd::prelude::*;

verus! {

pub const L_CTRL: u8 = 0x01;

pub const L_SHIFT: u8 = 0x02;

pub const L_ALT: u8 = 0x04;

pub const L_GUI: u8 = 0x08;

pub const R_CTRL: u8 = 0x10;

pub const R_SHIFT: u8 = 0x20;

pub const R_ALT: u8 = 0x40;

pub const R_GUI: u8 = 0x80;

} // verus!
