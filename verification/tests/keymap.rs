use std::collections::HashMap;

use rpi_hub::keymap::evdev_codes::{
    KEY_0, KEY_1, KEY_102ND, KEY_9, KEY_A, KEY_B, KEY_BACKSLASH, KEY_COMPOSE, KEY_ESC, KEY_F10,
    KEY_F11, KEY_F12, KEY_KP0, KEY_KP1, KEY_KPDOT, KEY_LEFTALT, KEY_LEFTCTRL, KEY_LEFTMETA,
    KEY_LEFTSHIFT, KEY_RIGHTALT, KEY_RIGHTCTRL, KEY_RIGHTMETA, KEY_RIGHTSHIFT, KEY_SEMICOLON,
    KEY_UP, KEY_Z,
};
use rpi_hub::keymap::modbit;
use rpi_hub::keymap::{self, swap_alt_gui, Mapped, ModifierLayout};

#[test]
fn letters_map_to_hid_usages() {
    // HID usage 0x04 is 'a', and the alphabet is contiguous from there.
    assert_eq!(keymap::map(KEY_A, ModifierLayout::default()), Mapped::Key(0x04));
    assert_eq!(keymap::map(KEY_B, ModifierLayout::default()), Mapped::Key(0x05));
    assert_eq!(keymap::map(KEY_Z, ModifierLayout::default()), Mapped::Key(0x1D));
}

#[test]
fn digits_start_at_one_not_zero() {
    // The HID digit block runs 1..9 then 0, which is not the obvious order.
    assert_eq!(keymap::map(KEY_1, ModifierLayout::default()), Mapped::Key(0x1E));
    assert_eq!(keymap::map(KEY_9, ModifierLayout::default()), Mapped::Key(0x26));
    assert_eq!(keymap::map(KEY_0, ModifierLayout::default()), Mapped::Key(0x27));
}

/// The headline behaviour: the key physically where a Mac puts Command must
/// produce Command. On a PC board that key is labelled Alt.
#[test]
fn mac_positional_puts_command_under_the_alt_key() {
    let l = ModifierLayout::MacPositional;
    assert_eq!(keymap::map(KEY_LEFTALT, l), Mapped::Modifier(modbit::L_GUI));
    assert_eq!(keymap::map(KEY_RIGHTALT, l), Mapped::Modifier(modbit::R_GUI));
}

/// ...and the Windows key, which sits where a Mac puts Option, gives Option.
#[test]
fn mac_positional_puts_option_under_the_win_key() {
    let l = ModifierLayout::MacPositional;
    assert_eq!(keymap::map(KEY_LEFTMETA, l), Mapped::Modifier(modbit::L_ALT));
    assert_eq!(keymap::map(KEY_RIGHTMETA, l), Mapped::Modifier(modbit::R_ALT));
}

#[test]
fn ctrl_and_shift_are_never_swapped() {
    for l in [ModifierLayout::MacPositional, ModifierLayout::Literal] {
        assert_eq!(keymap::map(KEY_LEFTCTRL, l), Mapped::Modifier(modbit::L_CTRL));
        assert_eq!(keymap::map(KEY_RIGHTCTRL, l), Mapped::Modifier(modbit::R_CTRL));
        assert_eq!(keymap::map(KEY_LEFTSHIFT, l), Mapped::Modifier(modbit::L_SHIFT));
        assert_eq!(keymap::map(KEY_RIGHTSHIFT, l), Mapped::Modifier(modbit::R_SHIFT));
    }
}

#[test]
fn literal_layout_honours_the_keycaps() {
    let l = ModifierLayout::Literal;
    assert_eq!(keymap::map(KEY_LEFTALT, l), Mapped::Modifier(modbit::L_ALT));
    assert_eq!(keymap::map(KEY_LEFTMETA, l), Mapped::Modifier(modbit::L_GUI));
}

#[test]
fn swapping_alt_and_gui_is_an_involution() {
    // Applying the swap twice must be the identity, or a round-trip through
    // the config would silently corrupt the mapping.
    for bits in 0u8..=255 {
        assert_eq!(swap_alt_gui(swap_alt_gui(bits)), bits, "bits={bits:#010b}");
    }
}

#[test]
fn unknown_codes_are_ignored_rather_than_guessed() {
    // Fn is swallowed by keyboard firmware; media keys live on another usage
    // page. Neither has a boot-protocol equivalent, so both must be dropped
    // rather than mapped to something plausible-but-wrong.
    assert_eq!(keymap::map(0xFFFF, ModifierLayout::default()), Mapped::Ignored);
}

#[test]
fn no_two_keys_share_a_usage_code() {
    // A duplicate in the table would make two physical keys indistinguishable.
    let mut seen = HashMap::new();
    for code in 0u16..256 {
        if let Mapped::Key(u) = keymap::map(code, ModifierLayout::default()) {
            if let Some(prev) = seen.insert(u, code) {
                panic!("usage {u:#04x} claimed by evdev {prev} and {code}");
            }
        }
    }
}

#[test]
fn the_swap_moves_alt_onto_gui_and_nothing_else() {
    assert_eq!(swap_alt_gui(modbit::L_ALT), modbit::L_GUI);
    assert_eq!(swap_alt_gui(modbit::L_GUI), modbit::L_ALT);
    assert_eq!(swap_alt_gui(modbit::R_ALT), modbit::R_GUI);
    assert_eq!(swap_alt_gui(modbit::R_GUI), modbit::R_ALT);
    assert_eq!(swap_alt_gui(0x33), 0x33);
    assert_eq!(swap_alt_gui(0x37), 0x3B);
    assert_eq!(swap_alt_gui(0x00), 0x00);
    assert_eq!(swap_alt_gui(0xFF), 0xFF);
}

#[test]
fn modifier_bits_are_the_eight_bits_in_hid_order() {
    assert_eq!(
        [
            modbit::L_CTRL,
            modbit::L_SHIFT,
            modbit::L_ALT,
            modbit::L_GUI,
            modbit::R_CTRL,
            modbit::R_SHIFT,
            modbit::R_ALT,
            modbit::R_GUI,
        ],
        [1 << 0, 1 << 1, 1 << 2, 1 << 3, 1 << 4, 1 << 5, 1 << 6, 1 << 7]
    );
}

#[test]
fn the_default_layout_is_positional() {
    assert_eq!(ModifierLayout::default(), ModifierLayout::MacPositional);
    assert_eq!(ModifierLayout::from_literal_flag(false), ModifierLayout::MacPositional);
    assert_eq!(ModifierLayout::from_literal_flag(true), ModifierLayout::Literal);
}

#[test]
fn a_layout_has_bits_for_modifiers_only() {
    assert_eq!(ModifierLayout::Literal.bit(KEY_RIGHTALT), Some(modbit::R_ALT));
    assert_eq!(ModifierLayout::MacPositional.bit(KEY_RIGHTALT), Some(modbit::R_GUI));
    assert_eq!(ModifierLayout::Literal.bit(KEY_A), None);
}

#[test]
fn scattered_keys_map_to_their_usages() {
    assert_eq!(keymap::usage(KEY_ESC), Some(0x29));
    assert_eq!(keymap::usage(KEY_BACKSLASH), Some(0x31));
    assert_eq!(keymap::usage(KEY_SEMICOLON), Some(0x33));
    assert_eq!(keymap::usage(KEY_F10), Some(0x43));
    assert_eq!(keymap::usage(KEY_F11), Some(0x44));
    assert_eq!(keymap::usage(KEY_F12), Some(0x45));
    assert_eq!(keymap::usage(KEY_UP), Some(0x52));
    assert_eq!(keymap::usage(KEY_KP1), Some(0x59));
    assert_eq!(keymap::usage(KEY_KP0), Some(0x62));
    assert_eq!(keymap::usage(KEY_KPDOT), Some(0x63));
    assert_eq!(keymap::usage(KEY_102ND), Some(0x64));
    assert_eq!(keymap::usage(KEY_COMPOSE), Some(0x65));
    assert_eq!(keymap::usage(0), None);
    assert_eq!(keymap::usage(KEY_LEFTALT), None);
}

#[test]
fn the_table_covers_every_usage_of_a_boot_keyboard() {
    // 0x04..=0x65, except 0x32, which shares its key with 0x31.
    let mut usages: Vec<u8> = (0u16..=u16::MAX).filter_map(keymap::usage).collect();
    usages.sort();
    let expected: Vec<u8> = (0x04u8..=0x65).filter(|&u| u != 0x32).collect();
    assert_eq!(usages, expected);
}

#[test]
fn key_codes_agree_with_the_evdev_crate() {
    assert_eq!(KEY_A, evdev::KeyCode::KEY_A.0);
    assert_eq!(KEY_LEFTMETA, evdev::KeyCode::KEY_LEFTMETA.0);
    assert_eq!(KEY_102ND, evdev::KeyCode::KEY_102ND.0);
    assert_eq!(KEY_COMPOSE, evdev::KeyCode::KEY_COMPOSE.0);
    assert_eq!(KEY_KPDOT, evdev::KeyCode::KEY_KPDOT.0);
}

#[test]
fn the_positional_layout_is_the_literal_one_swapped() {
    for code in 0u16..=u16::MAX {
        assert_eq!(
            ModifierLayout::MacPositional.bit(code),
            ModifierLayout::Literal.bit(code).map(swap_alt_gui)
        );
    }
}

#[test]
fn only_alt_and_meta_tell_the_layouts_apart() {
    let differ: Vec<u16> = (0u16..=u16::MAX)
        .filter(|&code| {
            keymap::map(code, ModifierLayout::MacPositional)
                != keymap::map(code, ModifierLayout::Literal)
        })
        .collect();
    assert_eq!(differ, vec![KEY_LEFTALT, KEY_RIGHTALT, KEY_LEFTMETA, KEY_RIGHTMETA]);
}

#[test]
fn each_modifier_has_a_bit_of_its_own() {
    for layout in [ModifierLayout::MacPositional, ModifierLayout::Literal] {
        let bits: Vec<u8> = (0u16..=u16::MAX).filter_map(|code| layout.bit(code)).collect();
        assert_eq!(bits.len(), 8);
        assert!(bits.iter().all(|bit| bit.count_ones() == 1));
        assert_eq!(bits.iter().fold(0, |all, bit| all | bit), 0xFF);
    }
}
