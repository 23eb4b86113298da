//! The map from Linux evdev key codes to USB HID usage codes.
//!
//! These are two unrelated numbering schemes. The table here is the inverse of
//! the kernel's `hid_keyboard[]` array in `drivers/hid/hid-input.c`.
//!
//! Modifiers are not usage codes at all -- they are bits in byte 0 of the HID
//! report -- so they come back as [`Mapped::Modifier`] instead.
use vstd::prelude::*;

pub mod evdev_codes;
pub mod modbit;

use crate::keymap::evdev_codes::{
    KEY_0, KEY_1, KEY_102ND, KEY_2, KEY_3, KEY_4, KEY_5, KEY_6, KEY_7, KEY_8, KEY_9, KEY_A,
    KEY_APOSTROPHE, KEY_B, KEY_BACKSLASH, KEY_BACKSPACE, KEY_C, KEY_CAPSLOCK, KEY_COMMA,
    KEY_COMPOSE, KEY_D, KEY_DELETE, KEY_DOT, KEY_DOWN, KEY_E, KEY_END, KEY_ENTER, KEY_EQUAL,
    KEY_ESC, KEY_F, KEY_F1, KEY_F10, KEY_F11, KEY_F12, KEY_F2, KEY_F3, KEY_F4, KEY_F5, KEY_F6,
    KEY_F7, KEY_F8, KEY_F9, KEY_G, KEY_GRAVE, KEY_H, KEY_HOME, KEY_I, KEY_INSERT, KEY_J, KEY_K,
    KEY_KP0, KEY_KP1, KEY_KP2, KEY_KP3, KEY_KP4, KEY_KP5, KEY_KP6, KEY_KP7, KEY_KP8, KEY_KP9,
    KEY_KPASTERISK, KEY_KPDOT, KEY_KPENTER, KEY_KPMINUS, KEY_KPPLUS, KEY_KPSLASH, KEY_L,
    KEY_LEFT, KEY_LEFTALT, KEY_LEFTBRACE, KEY_LEFTCTRL, KEY_LEFTMETA, KEY_LEFTSHIFT, KEY_M,
    KEY_MINUS, KEY_N, KEY_NUMLOCK, KEY_O, KEY_P, KEY_PAGEDOWN, KEY_PAGEUP, KEY_PAUSE, KEY_Q,
    KEY_R, KEY_RIGHT, KEY_RIGHTALT, KEY_RIGHTBRACE, KEY_RIGHTCTRL, KEY_RIGHTMETA,
    KEY_RIGHTSHIFT, KEY_S, KEY_SCROLLLOCK, KEY_SEMICOLON, KEY_SLASH, KEY_SPACE, KEY_SYSRQ,
    KEY_T, KEY_TAB, KEY_U, KEY_UP, KEY_V, KEY_W, KEY_X, KEY_Y, KEY_Z,
};
use crate::keymap::modbit::{L_ALT, L_CTRL, L_GUI, L_SHIFT, R_ALT, R_CTRL, R_GUI, R_SHIFT};

verus! {

/// What an evdev code turns into on the HID side.
#[derive(Debug, Clone, Copy, PartialEq, Eq, Structural)]
pub enum Mapped {
    /// A usage code occupying one of the 6 key slots.
    Key(u8),
    /// A bit in the modifier byte.
    Modifier(u8),
    /// No HID equivalent (or deliberately unmapped).
    Ignored,
}

/// How the physical modifier keys are wired to HID modifier bits.
///
/// A PC keyboard and a Mac keyboard disagree about what lives left of the
/// spacebar:
///
/// ```text
/// PC:   [Ctrl] [Win] [Alt] [Space]
/// Mac:  [Ctrl] [Opt] [Cmd] [Space]
/// ```
///
/// macOS reads the HID GUI bit as Command and the Alt bit as Option. So to put
/// Command under the key that is physically where a Mac puts Command -- the one
/// labelled Alt on a PC board -- the Alt and GUI bits must be swapped.
#[derive(Debug, Clone, Copy, PartialEq, Eq, Structural)]
pub enum ModifierLayout {
    /// Preserve *physical position*: PC-Alt emits GUI (Command), PC-Win emits
    /// Alt (Option). Your thumb finds Command where a Mac keyboard has it.
    MacPositional,
    /// Emit exactly what the keycaps say. PC-Alt emits Alt (Option), PC-Win
    /// emits GUI (Command).
    Literal,
}

impl Default for ModifierLayout {
    fn default() -> (r: Self)
        ensures
            r == ModifierLayout::MacPositional,
    {
        ModifierLayout::MacPositional
    }
}

/// The bit that the keycap of an evdev modifier code names.
pub open spec fn keycap_bit(code: u16) -> Option<u8> {
    match code {
        KEY_LEFTCTRL => Some(L_CTRL),
        KEY_LEFTSHIFT => Some(L_SHIFT),
        KEY_LEFTALT => Some(L_ALT),
        KEY_LEFTMETA => Some(L_GUI),
        KEY_RIGHTCTRL => Some(R_CTRL),
        KEY_RIGHTSHIFT => Some(R_SHIFT),
        KEY_RIGHTALT => Some(R_ALT),
        KEY_RIGHTMETA => Some(R_GUI),
        _ => None,
    }
}

/// The bit that an evdev modifier code sets under `layout`: what the keycap
/// says, except that the positional layout reads Alt as GUI and GUI as Alt.
pub open spec fn modifier_bit(code: u16, layout: ModifierLayout) -> Option<u8> {
    match layout {
        ModifierLayout::Literal => keycap_bit(code),
        ModifierLayout::MacPositional => match code {
            KEY_LEFTALT => Some(L_GUI),
            KEY_LEFTMETA => Some(L_ALT),
            KEY_RIGHTALT => Some(R_GUI),
            KEY_RIGHTMETA => Some(R_ALT),
            _ => keycap_bit(code),
        },
    }
}

/// The HID usage code of a non-modifier evdev code.
pub open spec fn usage_of(code: u16) -> Option<u8> {
    match code {
        // Letters
        KEY_A => Some(0x04),
        KEY_B => Some(0x05),
        KEY_C => Some(0x06),
        KEY_D => Some(0x07),
        KEY_E => Some(0x08),
        KEY_F => Some(0x09),
        KEY_G => Some(0x0A),
        KEY_H => Some(0x0B),
        KEY_I => Some(0x0C),
        KEY_J => Some(0x0D),
        KEY_K => Some(0x0E),
        KEY_L => Some(0x0F),
        KEY_M => Some(0x10),
        KEY_N => Some(0x11),
        KEY_O => Some(0x12),
        KEY_P => Some(0x13),
        KEY_Q => Some(0x14),
        KEY_R => Some(0x15),
        KEY_S => Some(0x16),
        KEY_T => Some(0x17),
        KEY_U => Some(0x18),
        KEY_V => Some(0x19),
        KEY_W => Some(0x1A),
        KEY_X => Some(0x1B),
        KEY_Y => Some(0x1C),
        KEY_Z => Some(0x1D),
        // Digit row
        KEY_1 => Some(0x1E),
        KEY_2 => Some(0x1F),
        KEY_3 => Some(0x20),
        KEY_4 => Some(0x21),
        KEY_5 => Some(0x22),
        KEY_6 => Some(0x23),
        KEY_7 => Some(0x24),
        KEY_8 => Some(0x25),
        KEY_9 => Some(0x26),
        KEY_0 => Some(0x27),
        // Editing / whitespace
        KEY_ENTER => Some(0x28),
        KEY_ESC => Some(0x29),
        KEY_BACKSPACE => Some(0x2A),
        KEY_TAB => Some(0x2B),
        KEY_SPACE => Some(0x2C),
        // Punctuation
        KEY_MINUS => Some(0x2D),
        KEY_EQUAL => Some(0x2E),
        KEY_LEFTBRACE => Some(0x2F),
        KEY_RIGHTBRACE => Some(0x30),
        KEY_BACKSLASH => Some(0x31),
        KEY_SEMICOLON => Some(0x33),
        KEY_APOSTROPHE => Some(0x34),
        KEY_GRAVE => Some(0x35),
        KEY_COMMA => Some(0x36),
        KEY_DOT => Some(0x37),
        KEY_SLASH => Some(0x38),
        KEY_CAPSLOCK => Some(0x39),
        // Function row
        KEY_F1 => Some(0x3A),
        KEY_F2 => Some(0x3B),
        KEY_F3 => Some(0x3C),
        KEY_F4 => Some(0x3D),
        KEY_F5 => Some(0x3E),
        KEY_F6 => Some(0x3F),
        KEY_F7 => Some(0x40),
        KEY_F8 => Some(0x41),
        KEY_F9 => Some(0x42),
        KEY_F10 => Some(0x43),
        KEY_F11 => Some(0x44),
        KEY_F12 => Some(0x45),
        // Navigation cluster
        KEY_SYSRQ => Some(0x46),
        KEY_SCROLLLOCK => Some(0x47),
        KEY_PAUSE => Some(0x48),
        KEY_INSERT => Some(0x49),
        KEY_HOME => Some(0x4A),
        KEY_PAGEUP => Some(0x4B),
        KEY_DELETE => Some(0x4C),
        KEY_END => Some(0x4D),
        KEY_PAGEDOWN => Some(0x4E),
        KEY_RIGHT => Some(0x4F),
        KEY_LEFT => Some(0x50),
        KEY_DOWN => Some(0x51),
        KEY_UP => Some(0x52),
        // Keypad
        KEY_NUMLOCK => Some(0x53),
        KEY_KPSLASH => Some(0x54),
        KEY_KPASTERISK => Some(0x55),
        KEY_KPMINUS => Some(0x56),
        KEY_KPPLUS => Some(0x57),
        KEY_KPENTER => Some(0x58),
        KEY_KP1 => Some(0x59),
        KEY_KP2 => Some(0x5A),
        KEY_KP3 => Some(0x5B),
        KEY_KP4 => Some(0x5C),
        KEY_KP5 => Some(0x5D),
        KEY_KP6 => Some(0x5E),
        KEY_KP7 => Some(0x5F),
        KEY_KP8 => Some(0x60),
        KEY_KP9 => Some(0x61),
        KEY_KP0 => Some(0x62),
        KEY_KPDOT => Some(0x63),
        // ISO extras
        KEY_102ND => Some(0x64),
        KEY_COMPOSE => Some(0x65),
        _ => None,
    }
}

/// The kernel's `hid_keyboard[]` read forwards, as far as the usages of a boot
/// keyboard go: the evdev code that a HID usage code stands for, in usage order.
/// Usage 0x32 (the non-US `#` key) shares an evdev code with 0x31 in the kernel,
/// and is left out here.
pub open spec fn evdev_of(usage: u8) -> Option<u16> {
    match usage {
        0x04 => Some(KEY_A),
        0x05 => Some(KEY_B),
        0x06 => Some(KEY_C),
        0x07 => Some(KEY_D),
        0x08 => Some(KEY_E),
        0x09 => Some(KEY_F),
        0x0A => Some(KEY_G),
        0x0B => Some(KEY_H),
        0x0C => Some(KEY_I),
        0x0D => Some(KEY_J),
        0x0E => Some(KEY_K),
        0x0F => Some(KEY_L),
        0x10 => Some(KEY_M),
        0x11 => Some(KEY_N),
        0x12 => Some(KEY_O),
        0x13 => Some(KEY_P),
        0x14 => Some(KEY_Q),
        0x15 => Some(KEY_R),
        0x16 => Some(KEY_S),
        0x17 => Some(KEY_T),
        0x18 => Some(KEY_U),
        0x19 => Some(KEY_V),
        0x1A => Some(KEY_W),
        0x1B => Some(KEY_X),
        0x1C => Some(KEY_Y),
        0x1D => Some(KEY_Z),
        0x1E => Some(KEY_1),
        0x1F => Some(KEY_2),
        0x20 => Some(KEY_3),
        0x21 => Some(KEY_4),
        0x22 => Some(KEY_5),
        0x23 => Some(KEY_6),
        0x24 => Some(KEY_7),
        0x25 => Some(KEY_8),
        0x26 => Some(KEY_9),
        0x27 => Some(KEY_0),
        0x28 => Some(KEY_ENTER),
        0x29 => Some(KEY_ESC),
        0x2A => Some(KEY_BACKSPACE),
        0x2B => Some(KEY_TAB),
        0x2C => Some(KEY_SPACE),
        0x2D => Some(KEY_MINUS),
        0x2E => Some(KEY_EQUAL),
        0x2F => Some(KEY_LEFTBRACE),
        0x30 => Some(KEY_RIGHTBRACE),
        0x31 => Some(KEY_BACKSLASH),
        0x33 => Some(KEY_SEMICOLON),
        0x34 => Some(KEY_APOSTROPHE),
        0x35 => Some(KEY_GRAVE),
        0x36 => Some(KEY_COMMA),
        0x37 => Some(KEY_DOT),
        0x38 => Some(KEY_SLASH),
        0x39 => Some(KEY_CAPSLOCK),
        0x3A => Some(KEY_F1),
        0x3B => Some(KEY_F2),
        0x3C => Some(KEY_F3),
        0x3D => Some(KEY_F4),
        0x3E => Some(KEY_F5),
        0x3F => Some(KEY_F6),
        0x40 => Some(KEY_F7),
        0x41 => Some(KEY_F8),
        0x42 => Some(KEY_F9),
        0x43 => Some(KEY_F10),
        0x44 => Some(KEY_F11),
        0x45 => Some(KEY_F12),
        0x46 => Some(KEY_SYSRQ),
        0x47 => Some(KEY_SCROLLLOCK),
        0x48 => Some(KEY_PAUSE),
        0x49 => Some(KEY_INSERT),
        0x4A => Some(KEY_HOME),
        0x4B => Some(KEY_PAGEUP),
        0x4C => Some(KEY_DELETE),
        0x4D => Some(KEY_END),
        0x4E => Some(KEY_PAGEDOWN),
        0x4F => Some(KEY_RIGHT),
        0x50 => Some(KEY_LEFT),
        0x51 => Some(KEY_DOWN),
        0x52 => Some(KEY_UP),
        0x53 => Some(KEY_NUMLOCK),
        0x54 => Some(KEY_KPSLASH),
        0x55 => Some(KEY_KPASTERISK),
        0x56 => Some(KEY_KPMINUS),
        0x57 => Some(KEY_KPPLUS),
        0x58 => Some(KEY_KPENTER),
        0x59 => Some(KEY_KP1),
        0x5A => Some(KEY_KP2),
        0x5B => Some(KEY_KP3),
        0x5C => Some(KEY_KP4),
        0x5D => Some(KEY_KP5),
        0x5E => Some(KEY_KP6),
        0x5F => Some(KEY_KP7),
        0x60 => Some(KEY_KP8),
        0x61 => Some(KEY_KP9),
        0x62 => Some(KEY_KP0),
        0x63 => Some(KEY_KPDOT),
        0x64 => Some(KEY_102ND),
        0x65 => Some(KEY_COMPOSE),
        _ => None,
    }
}

/// What an evdev code turns into under `layout`.
pub open spec fn mapped(code: u16, layout: ModifierLayout) -> Mapped {
    match modifier_bit(code, layout) {
        Some(bit) => Mapped::Modifier(bit),
        None => match usage_of(code) {
            Some(usage) => Mapped::Key(usage),
            None => Mapped::Ignored,
        },
    }
}

/// The modifier byte with each Alt bit moved onto its GUI bit and each GUI bit
/// onto its Alt bit, and the Ctrl and Shift bits where they were.
pub open spec fn alt_gui_swapped(bits: u8) -> u8 {
    (bits & 0x33) | ((bits & 0x44) << 1) | ((bits & 0x88) >> 1)
}

impl ModifierLayout {
    /// The layout that the `--literal-modifiers` switch selects.
    pub fn from_literal_flag(literal_modifiers: bool) -> (r: Self)
        ensures
            literal_modifiers ==> r == ModifierLayout::Literal,
            !literal_modifiers ==> r == ModifierLayout::MacPositional,
    {
        if literal_modifiers {
            ModifierLayout::Literal
        } else {
            ModifierLayout::MacPositional
        }
    }

    /// Map an evdev modifier code to its HID modifier bit under this layout.
    pub fn bit(self, code: u16) -> (r: Option<u8>)
        ensures
            r == modifier_bit(code, self),
    {
        let literal: u8 = match code {
            KEY_LEFTCTRL => L_CTRL,
            KEY_LEFTSHIFT => L_SHIFT,
            KEY_LEFTALT => L_ALT,
            KEY_LEFTMETA => L_GUI,
            KEY_RIGHTCTRL => R_CTRL,
            KEY_RIGHTSHIFT => R_SHIFT,
            KEY_RIGHTALT => R_ALT,
            KEY_RIGHTMETA => R_GUI,
            _ => return None,
        };
        proof {
            lemma_swap_of_single_bits();
        }
        Some(
            match self {
                ModifierLayout::Literal => literal,
                ModifierLayout::MacPositional => swap_alt_gui(literal),
            },
        )
    }
}

/// Exchange the Alt and GUI bits on both sides, leaving Ctrl/Shift alone.
pub fn swap_alt_gui(bits: u8) -> (r: u8)
    ensures
        r == alt_gui_swapped(bits),
{
    let cleared: u8 = bits & !(L_ALT | L_GUI | R_ALT | R_GUI);
    let mut out: u8 = cleared;
    if bits & L_ALT != 0 {
        out = out | L_GUI;
    }
    let ghost with_l_gui = out;
    if bits & L_GUI != 0 {
        out = out | L_ALT;
    }
    let ghost with_left = out;
    if bits & R_ALT != 0 {
        out = out | R_GUI;
    }
    let ghost with_r_gui = out;
    if bits & R_GUI != 0 {
        out = out | R_ALT;
    }
    assert(out == alt_gui_swapped(bits)) by (bit_vector)
        requires
            cleared == bits & !(L_ALT | L_GUI | R_ALT | R_GUI),
            with_l_gui == if bits & L_ALT != 0 { cleared | L_GUI } else { cleared },
            with_left == if bits & L_GUI != 0 { with_l_gui | L_ALT } else { with_l_gui },
            with_r_gui == if bits & R_ALT != 0 { with_left | R_GUI } else { with_left },
            out == if bits & R_GUI != 0 { with_r_gui | R_ALT } else { with_r_gui },
    ;
    out
}

/// Map one evdev key code to its HID equivalent.
pub fn map(code: u16, layout: ModifierLayout) -> (r: Mapped)
    ensures
        r == mapped(code, layout),
{
    if let Some(bit) = layout.bit(code) {
        return Mapped::Modifier(bit);
    }
    match usage(code) {
        Some(u) => Mapped::Key(u),
        None => Mapped::Ignored,
    }
}

/// evdev code -> HID usage code, for non-modifier keys.
pub fn usage(code: u16) -> (r: Option<u8>)
    ensures
        r == usage_of(code),
{
    Some(
        match code {
            // Letters
            KEY_A => 0x04,
            KEY_B => 0x05,
            KEY_C => 0x06,
            KEY_D => 0x07,
            KEY_E => 0x08,
            KEY_F => 0x09,
            KEY_G => 0x0A,
            KEY_H => 0x0B,
            KEY_I => 0x0C,
            KEY_J => 0x0D,
            KEY_K => 0x0E,
            KEY_L => 0x0F,
            KEY_M => 0x10,
            KEY_N => 0x11,
            KEY_O => 0x12,
            KEY_P => 0x13,
            KEY_Q => 0x14,
            KEY_R => 0x15,
            KEY_S => 0x16,
            KEY_T => 0x17,
            KEY_U => 0x18,
            KEY_V => 0x19,
            KEY_W => 0x1A,
            KEY_X => 0x1B,
            KEY_Y => 0x1C,
            KEY_Z => 0x1D,
            // Digit row
            KEY_1 => 0x1E,
            KEY_2 => 0x1F,
            KEY_3 => 0x20,
            KEY_4 => 0x21,
            KEY_5 => 0x22,
            KEY_6 => 0x23,
            KEY_7 => 0x24,
            KEY_8 => 0x25,
            KEY_9 => 0x26,
            KEY_0 => 0x27,
            // Editing / whitespace
            KEY_ENTER => 0x28,
            KEY_ESC => 0x29,
            KEY_BACKSPACE => 0x2A,
            KEY_TAB => 0x2B,
            KEY_SPACE => 0x2C,
            // Punctuation
            KEY_MINUS => 0x2D,
            KEY_EQUAL => 0x2E,
            KEY_LEFTBRACE => 0x2F,
            KEY_RIGHTBRACE => 0x30,
            KEY_BACKSLASH => 0x31,
            KEY_SEMICOLON => 0x33,
            KEY_APOSTROPHE => 0x34,
            KEY_GRAVE => 0x35,
            KEY_COMMA => 0x36,
            KEY_DOT => 0x37,
            KEY_SLASH => 0x38,
            KEY_CAPSLOCK => 0x39,
            // Function row
            KEY_F1 => 0x3A,
            KEY_F2 => 0x3B,
            KEY_F3 => 0x3C,
            KEY_F4 => 0x3D,
            KEY_F5 => 0x3E,
            KEY_F6 => 0x3F,
            KEY_F7 => 0x40,
            KEY_F8 => 0x41,
            KEY_F9 => 0x42,
            KEY_F10 => 0x43,
            KEY_F11 => 0x44,
            KEY_F12 => 0x45,
            // Navigation cluster
            KEY_SYSRQ => 0x46,  // PrintScreen
            KEY_SCROLLLOCK => 0x47,
            KEY_PAUSE => 0x48,
            KEY_INSERT => 0x49,
            KEY_HOME => 0x4A,
            KEY_PAGEUP => 0x4B,
            KEY_DELETE => 0x4C,
            KEY_END => 0x4D,
            KEY_PAGEDOWN => 0x4E,
            KEY_RIGHT => 0x4F,
            KEY_LEFT => 0x50,
            KEY_DOWN => 0x51,
            KEY_UP => 0x52,
            // Keypad
            KEY_NUMLOCK => 0x53,
            KEY_KPSLASH => 0x54,
            KEY_KPASTERISK => 0x55,
            KEY_KPMINUS => 0x56,
            KEY_KPPLUS => 0x57,
            KEY_KPENTER => 0x58,
            KEY_KP1 => 0x59,
            KEY_KP2 => 0x5A,
            KEY_KP3 => 0x5B,
            KEY_KP4 => 0x5C,
            KEY_KP5 => 0x5D,
            KEY_KP6 => 0x5E,
            KEY_KP7 => 0x5F,
            KEY_KP8 => 0x60,
            KEY_KP9 => 0x61,
            KEY_KP0 => 0x62,
            KEY_KPDOT => 0x63,
            // ISO extras
            KEY_102ND => 0x64,  // the key next to left-shift on ISO boards
            KEY_COMPOSE => 0x65,  // Menu / Application
            _ => return None,
        },
    )
}

/// What the swap does to the eight bits one by one.
proof fn lemma_swap_of_single_bits()
    ensures
        alt_gui_swapped(L_CTRL) == L_CTRL,
        alt_gui_swapped(L_SHIFT) == L_SHIFT,
        alt_gui_swapped(L_ALT) == L_GUI,
        alt_gui_swapped(L_GUI) == L_ALT,
        alt_gui_swapped(R_CTRL) == R_CTRL,
        alt_gui_swapped(R_SHIFT) == R_SHIFT,
        alt_gui_swapped(R_ALT) == R_GUI,
        alt_gui_swapped(R_GUI) == R_ALT,
{
    assert(alt_gui_swapped(L_CTRL) == L_CTRL && alt_gui_swapped(L_SHIFT) == L_SHIFT
        && alt_gui_swapped(L_ALT) == L_GUI && alt_gui_swapped(L_GUI) == L_ALT
        && alt_gui_swapped(R_CTRL) == R_CTRL && alt_gui_swapped(R_SHIFT) == R_SHIFT
        && alt_gui_swapped(R_ALT) == R_GUI && alt_gui_swapped(R_GUI) == R_ALT) by (bit_vector);
}

/// Swapping Alt and GUI twice gives the modifier byte back.
pub proof fn lemma_swap_is_involution(bits: u8)
    ensures
        alt_gui_swapped(alt_gui_swapped(bits)) == bits,
{
    assert(alt_gui_swapped(alt_gui_swapped(bits)) == bits) by (bit_vector);
}

/// The swap exchanges Alt with GUI on each side, and leaves Ctrl and Shift as
/// they were: the eight bits of the result, one by one.
pub proof fn lemma_swap_bit_by_bit(bits: u8)
    ensures
        (alt_gui_swapped(bits) & L_GUI != 0) == (bits & L_ALT != 0),
        (alt_gui_swapped(bits) & L_ALT != 0) == (bits & L_GUI != 0),
        (alt_gui_swapped(bits) & R_GUI != 0) == (bits & R_ALT != 0),
        (alt_gui_swapped(bits) & R_ALT != 0) == (bits & R_GUI != 0),
        (alt_gui_swapped(bits) & L_CTRL != 0) == (bits & L_CTRL != 0),
        (alt_gui_swapped(bits) & L_SHIFT != 0) == (bits & L_SHIFT != 0),
        (alt_gui_swapped(bits) & R_CTRL != 0) == (bits & R_CTRL != 0),
        (alt_gui_swapped(bits) & R_SHIFT != 0) == (bits & R_SHIFT != 0),
{
    let swapped = alt_gui_swapped(bits);
    assert((swapped & L_GUI != 0) == (bits & L_ALT != 0)
        && (swapped & L_ALT != 0) == (bits & L_GUI != 0)
        && (swapped & R_GUI != 0) == (bits & R_ALT != 0)
        && (swapped & R_ALT != 0) == (bits & R_GUI != 0)
        && (swapped & L_CTRL != 0) == (bits & L_CTRL != 0)
        && (swapped & L_SHIFT != 0) == (bits & L_SHIFT != 0)
        && (swapped & R_CTRL != 0) == (bits & R_CTRL != 0)
        && (swapped & R_SHIFT != 0) == (bits & R_SHIFT != 0)) by (bit_vector)
        requires
            swapped == alt_gui_swapped(bits),
    ;
}

/// The positional layout is the literal one with the Alt and GUI bits swapped,
/// on every evdev code.
pub proof fn lemma_positional_is_literal_swapped(code: u16)
    ensures
        modifier_bit(code, ModifierLayout::MacPositional) == match modifier_bit(
            code,
            ModifierLayout::Literal,
        ) {
            Some(bit) => Some(alt_gui_swapped(bit)),
            None => None,
        },
{
    lemma_swap_of_single_bits();
}

/// Only the Alt and Meta keys tell the two layouts apart: Ctrl, Shift and every
/// ordinary key come out the same under both.
pub proof fn lemma_layouts_differ_on_alt_and_meta_only(code: u16)
    ensures
        (mapped(code, ModifierLayout::MacPositional) != mapped(code, ModifierLayout::Literal))
            <==> (code == KEY_LEFTALT || code == KEY_RIGHTALT || code == KEY_LEFTMETA || code
            == KEY_RIGHTMETA),
{
}

/// The usage table and the kernel's table are inverse to each other: a code has
/// a usage exactly where the usage stands for that code.
pub proof fn lemma_usage_table_inverts_kernel_table(code: u16, usage: u8)
    ensures
        usage_of(code) == Some(usage) <==> evdev_of(usage) == Some(code),
{
}

/// The map follows the kernel's table: a code maps to a key exactly where that
/// key's usage stands for the code, under either layout.
pub proof fn lemma_map_follows_kernel_table(code: u16, layout: ModifierLayout, usage: u8)
    ensures
        mapped(code, layout) == Mapped::Key(usage) <==> evdev_of(usage) == Some(code),
{
    lemma_usage_table_inverts_kernel_table(code, usage);
}

/// The kernel's `hid_keyboard[]` as it stands, indexed by usage, 0 where a usage
/// has no key: a code maps to a usage exactly where the array has the code at
/// that usage. Usages 0x31 and 0x32 share one code, which maps to the first.
pub proof fn lemma_map_inverts_kernel_array(code: u16, layout: ModifierLayout, usage: u8)
    ensures
        ({
            let hid_keyboard = seq![
                0u16, 0, 0, 0, 30, 48, 46, 32, 18, 33, 34, 35,
                23, 36, 37, 38, 50, 49, 24, 25, 16, 19, 31, 20,
                22, 47, 17, 45, 21, 44, 2, 3, 4, 5, 6, 7,
                8, 9, 10, 11, 28, 1, 14, 15, 57, 12, 13, 26,
                27, 43, 43, 39, 40, 41, 51, 52, 53, 58, 59, 60,
                61, 62, 63, 64, 65, 66, 67, 68, 87, 88, 99, 70,
                119, 110, 102, 104, 111, 107, 109, 106, 105, 108, 103, 69,
                98, 55, 74, 78, 96, 79, 80, 81, 75, 76, 77, 71,
                72, 73, 82, 83, 86, 127,
            ];
            let stands_for = usage < 0x66 && usage != 0x32 && code != 0
                && hid_keyboard[usage as int] == code;
            &&& mapped(code, layout) == Mapped::Key(usage) <==> stands_for
            &&& usage_of(code) == Some(usage) <==> stands_for
        }),
{
    lemma_usage_table_inverts_kernel_table(code, usage);
}

/// The three rows of letters: each key maps to its letter's place in the
/// alphabet, counted from 0x04.
pub proof fn lemma_letter_rows_follow_the_alphabet(layout: ModifierLayout, i: int)
    ensures
        0 <= i < 10 ==> mapped((16 + i) as u16, layout) == Mapped::Key(
            (0x04 + ("qwertyuiop"@[i] as int - 'a' as int)) as u8,
        ),
        0 <= i < 9 ==> mapped((30 + i) as u16, layout) == Mapped::Key(
            (0x04 + ("asdfghjkl"@[i] as int - 'a' as int)) as u8,
        ),
        0 <= i < 7 ==> mapped((44 + i) as u16, layout) == Mapped::Key(
            (0x04 + ("zxcvbnm"@[i] as int - 'a' as int)) as u8,
        ),
{
    reveal_strlit("qwertyuiop");
    reveal_strlit("asdfghjkl");
    reveal_strlit("zxcvbnm");
}

/// The blocks that run in step: the digit row 1 to 9 and then 0, F1 to F10, F11
/// and F12, and the three rows of the keypad.
pub proof fn lemma_blocks_run_in_step(layout: ModifierLayout, i: int)
    ensures
        0 <= i < 10 ==> mapped((2 + i) as u16, layout) == Mapped::Key((0x1E + i) as u8),
        0 <= i < 10 ==> mapped((59 + i) as u16, layout) == Mapped::Key((0x3A + i) as u8),
        0 <= i < 2 ==> mapped((87 + i) as u16, layout) == Mapped::Key((0x44 + i) as u8),
        0 <= i < 3 ==> mapped((79 + i) as u16, layout) == Mapped::Key((0x59 + i) as u8),
        0 <= i < 3 ==> mapped((75 + i) as u16, layout) == Mapped::Key((0x5C + i) as u8),
        0 <= i < 3 ==> mapped((71 + i) as u16, layout) == Mapped::Key((0x5F + i) as u8),
{
}

/// The eight modifier keys in the order of their bits: left Ctrl, Shift, Alt and
/// Meta, then the right ones. Read literally the n-th key sets the n-th bit;
/// read by position Alt and Meta trade places. No other code is a modifier, and
/// no modifier is a key.
pub proof fn lemma_modifiers_in_bit_order(code: u16, layout: ModifierLayout, i: int)
    ensures
        ({
            let keys = seq![29u16, 42, 56, 125, 97, 54, 100, 126];
            let literal = seq![0x01u8, 0x02, 0x04, 0x08, 0x10, 0x20, 0x40, 0x80];
            let positional = seq![0x01u8, 0x02, 0x08, 0x04, 0x10, 0x20, 0x80, 0x40];
            let bits = match layout {
                ModifierLayout::Literal => literal,
                ModifierLayout::MacPositional => positional,
            };
            &&& 0 <= i < 8 ==> mapped(keys[i], layout) == Mapped::Modifier(bits[i])
            &&& 0 <= i < 8 ==> modifier_bit(keys[i], layout) == Some(bits[i])
            &&& mapped(code, layout) is Modifier <==> keys.contains(code)
            &&& modifier_bit(code, layout) is Some <==> keys.contains(code)
        }),
{
    let keys = seq![29u16, 42, 56, 125, 97, 54, 100, 126];
    assert(keys[0] == 29 && keys[1] == 42 && keys[2] == 56 && keys[3] == 125 && keys[4] == 97
        && keys[5] == 54 && keys[6] == 100 && keys[7] == 126);
    if keys.contains(code) {
        let k = choose|k: int| 0 <= k < keys.len() && keys[k] == code;
        assert(k == 0 || k == 1 || k == 2 || k == 3 || k == 4 || k == 5 || k == 6 || k == 7);
    }
}

/// A code is ignored exactly if it is neither a modifier nor a key of the
/// kernel's table.
pub proof fn lemma_only_unknown_codes_are_ignored(code: u16, layout: ModifierLayout)
    ensures
        mapped(code, layout) == Mapped::Ignored <==> modifier_bit(code, layout) is None && forall|
            usage: u8,
        | #[trigger]
            evdev_of(usage) != Some(code),
{
    if let Some(usage) = usage_of(code) {
        lemma_usage_table_inverts_kernel_table(code, usage);
    }
    assert forall|usage: u8| usage_of(code) is None implies #[trigger] evdev_of(usage) != Some(
        code,
    ) by {
        lemma_usage_table_inverts_kernel_table(code, usage);
    }
}

/// No two keys share a usage code, and no two modifiers a modifier bit: under
/// one layout, two evdev codes that map to the same thing are one code, unless
/// both are ignored.
pub proof fn lemma_map_is_injective(first: u16, second: u16, layout: ModifierLayout)
    requires
        mapped(first, layout) == mapped(second, layout),
        mapped(first, layout) != Mapped::Ignored,
    ensures
        first == second,
{
    if let Mapped::Key(usage) = mapped(first, layout) {
        lemma_usage_table_inverts_kernel_table(first, usage);
        lemma_usage_table_inverts_kernel_table(second, usage);
    }
}

/// Every usage code that a key can map to is one the keyboard page assigns to a
/// key: above the error codes 0x01 to 0x03, and no more than 0x65.
pub proof fn lemma_key_usage_range(code: u16, layout: ModifierLayout)
    ensures
        mapped(code, layout) matches Mapped::Key(usage) ==> 0x04 <= usage <= 0x65,
{
}

/// Every modifier maps to exactly one of the eight bits of the modifier byte.
pub proof fn lemma_modifier_is_single_bit(code: u16, layout: ModifierLayout)
    ensures
        mapped(code, layout) matches Mapped::Modifier(bit) ==> bit == L_CTRL || bit == L_SHIFT
            || bit == L_ALT || bit == L_GUI || bit == R_CTRL || bit == R_SHIFT || bit == R_ALT
            || bit == R_GUI,
{
}

} // verus!
