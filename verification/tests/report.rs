use rpi_hub::keymap::evdev_codes::{
    KEY_A, KEY_B, KEY_C, KEY_D, KEY_E, KEY_F, KEY_G, KEY_H, KEY_LEFTALT, KEY_LEFTCTRL,
    KEY_LEFTSHIFT, KEY_RIGHTMETA,
};
use rpi_hub::keymap::modbit;
use rpi_hub::keymap::ModifierLayout;
use rpi_hub::report::KeyboardState;

fn kb() -> KeyboardState {
    KeyboardState::new(ModifierLayout::MacPositional)
}

#[test]
fn a_single_keypress_fills_the_first_slot() {
    let mut k = kb();
    assert!(k.apply(KEY_A, true));
    assert_eq!(k.report(), [0, 0, 0x04, 0, 0, 0, 0, 0]);
    assert!(k.apply(KEY_A, false));
    assert_eq!(k.report(), [0; 8]);
}

#[test]
fn the_wire_frame_carries_the_hidp_header_and_report_id() {
    let mut k = kb();
    k.apply(KEY_A, true);
    assert_eq!(k.wire_report(), [0xA1, 0x01, 0, 0, 0x04, 0, 0, 0, 0, 0]);
}

/// The point of the whole modifier layout: physical Alt produces Command.
#[test]
fn alt_plus_c_is_delivered_to_macos_as_command_c() {
    let mut k = kb();
    k.apply(KEY_LEFTALT, true);
    k.apply(KEY_C, true);
    assert_eq!(k.report(), [modbit::L_GUI, 0, 0x06, 0, 0, 0, 0, 0]);
}

#[test]
fn releasing_a_middle_key_does_not_disturb_its_neighbours() {
    let mut k = kb();
    k.apply(KEY_A, true);
    k.apply(KEY_B, true);
    k.apply(KEY_C, true);
    k.apply(KEY_B, false);
    // The hole is left in place; keys do not shuffle down.
    assert_eq!(k.report(), [0, 0, 0x04, 0, 0x06, 0, 0, 0]);
    // ...and the freed slot is reused by the next press.
    k.apply(KEY_D, true);
    assert_eq!(k.report(), [0, 0, 0x04, 0x07, 0x06, 0, 0, 0]);
}

#[test]
fn repeated_press_of_a_held_key_emits_nothing() {
    let mut k = kb();
    assert!(k.apply(KEY_A, true));
    assert!(!k.apply(KEY_A, true), "a redundant press must not resend");
}

#[test]
fn releasing_a_key_that_was_never_down_emits_nothing() {
    let mut k = kb();
    assert!(!k.apply(KEY_A, false));
}

#[test]
fn a_seventh_key_triggers_rollover_error() {
    let mut k = kb();
    for c in [KEY_A, KEY_B, KEY_C, KEY_D, KEY_E, KEY_F] {
        k.apply(c, true);
    }
    assert_eq!(k.report(), [0, 0, 0x04, 0x05, 0x06, 0x07, 0x08, 0x09]);
    k.apply(KEY_G, true);
    assert_eq!(k.report(), [0, 0, 0x01, 0x01, 0x01, 0x01, 0x01, 0x01]);
}

#[test]
fn rollover_clears_rather_than_wedging() {
    // Coming out of rollover must not leave phantom 0x01s held forever.
    let mut k = kb();
    for c in [KEY_A, KEY_B, KEY_C, KEY_D, KEY_E, KEY_F, KEY_G] {
        k.apply(c, true);
    }
    k.apply(KEY_G, false);
    assert_eq!(k.report(), [0; 8], "rollover must drain, not stick");
}

#[test]
fn modifiers_survive_key_traffic() {
    let mut k = kb();
    k.apply(KEY_LEFTSHIFT, true);
    k.apply(KEY_A, true);
    k.apply(KEY_A, false);
    assert_eq!(k.report()[0], modbit::L_SHIFT, "shift must still be held");
}

#[test]
fn release_all_clears_keys_and_modifiers() {
    let mut k = kb();
    k.apply(KEY_LEFTALT, true);
    k.apply(KEY_A, true);
    assert!(k.release_all());
    assert_eq!(k.report(), [0; 8]);
    // Idempotent: nothing left to clear means nothing to send.
    assert!(!k.release_all());
}

/// The failure this guards against is the nastiest one in the system: the
/// link drops mid-chord and the Mac is left holding Command forever.
#[test]
fn release_all_rescues_a_stuck_modifier() {
    let mut k = kb();
    k.apply(KEY_LEFTALT, true); // -> Command, held
    assert_ne!(k.report()[0], 0);
    k.release_all();
    assert_eq!(k.report()[0], 0, "Command must not survive a disconnect");
}

#[test]
fn ignored_keys_never_occupy_a_slot() {
    let mut k = kb();
    assert!(!k.apply(0xFFFF, true));
    assert_eq!(k.report(), [0; 8]);
}

#[test]
fn an_eighth_key_in_rollover_emits_nothing() {
    let mut k = kb();
    for c in [KEY_A, KEY_B, KEY_C, KEY_D, KEY_E, KEY_F] {
        assert!(k.apply(c, true));
    }
    assert!(k.apply(KEY_G, true), "entering rollover is visible");
    assert!(!k.apply(KEY_H, true), "staying in rollover is not");
    assert_eq!(k.report(), [0, 0, 0x01, 0x01, 0x01, 0x01, 0x01, 0x01]);
    // Any release drains it, and the others are not known to be held any more.
    assert!(k.apply(KEY_A, false));
    assert!(!k.apply(KEY_B, false));
    assert_eq!(k.report(), [0; 8]);
}

#[test]
fn modifiers_set_and_clear_their_own_bit() {
    let mut k = kb();
    assert!(k.apply(KEY_LEFTCTRL, true));
    assert!(k.apply(KEY_RIGHTMETA, true));
    assert!(!k.apply(KEY_RIGHTMETA, true), "a redundant modifier must not resend");
    assert_eq!(k.report()[0], modbit::L_CTRL | modbit::R_ALT);
    assert!(k.apply(KEY_LEFTCTRL, false));
    assert!(!k.apply(KEY_LEFTCTRL, false));
    assert_eq!(k.report(), [modbit::R_ALT, 0, 0, 0, 0, 0, 0, 0]);
}

#[test]
fn modifiers_survive_rollover() {
    let mut k = kb();
    k.apply(KEY_LEFTSHIFT, true);
    for c in [KEY_A, KEY_B, KEY_C, KEY_D, KEY_E, KEY_F, KEY_G] {
        k.apply(c, true);
    }
    assert_eq!(k.report(), [modbit::L_SHIFT, 0, 1, 1, 1, 1, 1, 1]);
    k.apply(KEY_A, false);
    assert_eq!(k.report(), [modbit::L_SHIFT, 0, 0, 0, 0, 0, 0, 0]);
}

#[test]
fn a_release_undoes_a_press() {
    let mut k = kb();
    k.apply(KEY_A, true);
    k.apply(KEY_LEFTSHIFT, true);
    let before = k.clone();
    k.apply(KEY_B, true);
    assert!(k != before);
    k.apply(KEY_B, false);
    assert!(k == before);
}

#[test]
fn the_literal_layout_is_honoured() {
    let mut k = KeyboardState::new(ModifierLayout::Literal);
    k.apply(KEY_LEFTALT, true);
    assert_eq!(k.report()[0], modbit::L_ALT);
    assert!(k != kb());
}

#[test]
fn a_default_keyboard_is_positional_and_blank() {
    assert!(KeyboardState::default() == kb());
    assert_eq!(KeyboardState::default().wire_report(), [0xA1, 0x01, 0, 0, 0, 0, 0, 0, 0, 0]);
}

#[test]
fn the_report_lists_what_is_down_after_a_run_of_events() {
    let mut k = kb();
    let run = [
        (KEY_A, true),
        (KEY_LEFTSHIFT, true),
        (KEY_B, true),
        (KEY_C, true),
        (KEY_A, false),
        (KEY_LEFTALT, true),
        (KEY_D, true),
        (KEY_LEFTSHIFT, false),
        (KEY_C, false),
        (KEY_C, false),
        (KEY_E, true),
    ];
    for (code, pressed) in run {
        k.apply(code, pressed);
    }
    let report = k.report();
    assert_eq!(report[0], modbit::L_GUI);
    let mut down: Vec<u8> = report[2..].iter().copied().filter(|&u| u != 0).collect();
    down.sort();
    assert_eq!(down, vec![0x05, 0x07, 0x08]);
}

#[test]
fn a_key_release_frees_the_slot_that_its_press_took() {
    let mut k = kb();
    assert!(k.press(0x04));
    assert!(k.press(0x05));
    assert!(k.release(0x04));
    let before = k.clone();
    assert!(k.press(0x65));
    assert_eq!(k.report(), [0, 0, 0x65, 0x05, 0, 0, 0, 0]);
    assert!(k.release(0x65));
    assert!(k == before);
    assert!(!k.release(0x65));
}

#[test]
fn a_drained_rollover_reports_no_key_that_is_up() {
    let mut k = kb();
    for c in [KEY_A, KEY_B, KEY_C, KEY_D, KEY_E, KEY_F, KEY_G] {
        k.apply(c, true);
    }
    // Six keys are still down, and none of them is known any more.
    k.apply(KEY_A, false);
    assert_eq!(k.report(), [0; 8]);
    // From here on the report lists what goes down, and only that.
    k.apply(KEY_H, true);
    k.apply(KEY_B, false);
    assert_eq!(k.report(), [0, 0, 0x0B, 0, 0, 0, 0, 0]);
}

#[test]
fn usages_beyond_the_keymap_are_slots_like_any_other() {
    let mut k = kb();
    assert!(k.press(0xFF));
    assert!(k.press(0x02));
    assert_eq!(k.report(), [0, 0, 0xFF, 0x02, 0, 0, 0, 0]);
    assert!(!k.release(0x01));
    assert!(k.release(0xFF));
    assert!(!k.release(0xFF));
    assert_eq!(k.report(), [0, 0, 0, 0x02, 0, 0, 0, 0]);
    // Usage 0 marks a free slot: there is nothing to press, and letting go of a
    // free slot leaves it free.
    assert!(!k.press(0));
    assert!(k.release(0));
    assert_eq!(k.report(), [0, 0, 0, 0x02, 0, 0, 0, 0]);
}

#[test]
fn any_release_drains_a_rollover() {
    for usage in [0x00, 0x01, 0x04, 0xFF] {
        let mut k = kb();
        for key in 0x10..0x17 {
            k.press(key);
        }
        assert_eq!(k.report(), [0, 0, 1, 1, 1, 1, 1, 1]);
        assert!(!k.press(0x01));
        assert!(k.release(usage));
        assert_eq!(k.report(), [0; 8]);
    }
}
