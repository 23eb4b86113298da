use rpi_hub::bridge::{
    trace_line, Action, Bridge, Event, Phase, PumpEnd, Startup, StopReason,
};
use rpi_hub::input::KeyEvent;
use rpi_hub::keymap::evdev_codes::{KEY_A, KEY_LEFTALT};
use rpi_hub::keymap::modbit;
use rpi_hub::keymap::ModifierLayout;

const BLANK: [u8; 10] = [0xA1, 0x01, 0, 0, 0, 0, 0, 0, 0, 0];

fn key(code: u16, pressed: bool) -> Event {
    Event::Key(KeyEvent { code, pressed })
}

/// A bridge with a host that has been greeted.
fn pumping() -> Bridge {
    let mut b = Bridge::new(ModifierLayout::MacPositional);
    assert!(matches!(b.action(), Action::AwaitHost));
    assert!(matches!(b.step(Event::HostConnected), Action::TrustPeer));
    assert!(matches!(b.step(Event::TrustDone), Action::Send(BLANK)));
    assert!(matches!(b.step(Event::Sent), Action::NextKey));
    b
}

#[test]
fn listing_wins_and_a_device_is_needed() {
    assert_eq!(Startup::from_args(true, 0), Startup::List);
    assert_eq!(Startup::from_args(true, 2), Startup::List);
    assert_eq!(Startup::from_args(false, 0), Startup::NoDevice);
    assert_eq!(Startup::from_args(false, 1), Startup::Bridge);
}

#[test]
fn a_fresh_link_starts_blank_even_if_the_greeting_is_lost() {
    let mut b = Bridge::new(ModifierLayout::MacPositional);
    b.step(Event::HostConnected);
    assert!(matches!(b.step(Event::TrustDone), Action::Send(BLANK)));
    assert!(matches!(b.step(Event::SendFailed), Action::NextKey));
    assert_eq!(b.phase(), Phase::Pumping);
}

#[test]
fn changes_are_sent_and_nothing_else() {
    let mut b = pumping();
    assert!(matches!(
        b.step(key(KEY_A, true)),
        Action::Send([0xA1, 0x01, 0, 0, 0x04, 0, 0, 0, 0, 0])
    ));
    assert!(matches!(b.step(Event::Sent), Action::NextKey));
    assert!(matches!(b.step(key(KEY_A, true)), Action::NextKey));
    assert!(matches!(b.step(key(0xFFFF, true)), Action::NextKey));
    assert!(matches!(b.step(key(KEY_A, false)), Action::Send(BLANK)));
}

#[test]
fn a_host_lost_mid_chord_is_told_to_let_go_and_waited_for() {
    let mut b = pumping();
    assert!(matches!(b.step(key(KEY_LEFTALT, true)), Action::Send(_)));
    assert_eq!(b.report()[0], modbit::L_GUI);
    assert!(matches!(b.step(Event::SendFailed), Action::Send(BLANK)));
    assert_eq!(b.phase(), Phase::Releasing(PumpEnd::HostGone));
    assert!(matches!(b.step(Event::SendFailed), Action::AwaitHost));
    assert_eq!(b.report(), [0; 8]);
    // The next host does not inherit Command.
    assert!(matches!(b.step(Event::HostConnected), Action::TrustPeer));
    assert!(matches!(b.step(Event::TrustDone), Action::Send(BLANK)));
}

#[test]
fn a_host_lost_with_nothing_held_is_waited_for_at_once() {
    let mut b = pumping();
    b.step(key(KEY_A, true));
    b.step(Event::Sent);
    assert!(matches!(b.step(key(KEY_A, false)), Action::Send(BLANK)));
    assert!(matches!(b.step(Event::SendFailed), Action::AwaitHost));
}

#[test]
fn losing_the_keyboard_stops_the_bridge() {
    let mut b = pumping();
    assert!(matches!(b.step(Event::InputClosed), Action::Stop(StopReason::InputGone)));

    let mut b = pumping();
    b.step(key(KEY_A, true));
    b.step(Event::Sent);
    assert!(matches!(b.step(Event::InputClosed), Action::Send(BLANK)));
    assert!(matches!(b.step(Event::Sent), Action::Stop(StopReason::InputGone)));
    assert!(matches!(b.step(Event::HostConnected), Action::Stop(StopReason::InputGone)));
}

#[test]
fn failing_to_wait_stops_the_bridge() {
    let mut b = Bridge::new(ModifierLayout::Literal);
    assert!(matches!(b.step(Event::WaitFailed), Action::Stop(StopReason::WaitFailed)));
    assert_eq!(b.phase(), Phase::Stopped(StopReason::WaitFailed));
}

#[test]
fn events_out_of_turn_change_nothing() {
    let mut b = Bridge::new(ModifierLayout::Literal);
    assert!(matches!(b.step(key(KEY_A, true)), Action::AwaitHost));
    assert!(matches!(b.step(Event::Sent), Action::AwaitHost));
    assert_eq!(b.report(), [0; 8]);
}

#[test]
fn the_log_line_shows_code_direction_and_report() {
    let report = [0x08, 0, 0x06, 0, 0, 0xab, 0, 0];
    for code in [3u16, 46, 125, 0xFFFF] {
        for pressed in [true, false] {
            for changed in [true, false] {
                let action = if pressed { "down" } else { "up  " };
                let note = if changed { "" } else { "  (no change, not sent)" };
                assert_eq!(
                    trace_line(KeyEvent { code, pressed }, &report, changed),
                    format!("evdev {code:>3} {action} -> {report:02x?}{note}")
                );
            }
        }
    }
    assert_eq!(
        trace_line(KeyEvent { code: 30, pressed: true }, &[0, 0, 4, 0, 0, 0, 0, 0], true),
        "evdev  30 down -> [00, 00, 04, 00, 00, 00, 00, 00]"
    );
}

#[test]
fn a_new_link_shows_the_keys_of_that_link_only() {
    let mut b = pumping();
    b.step(key(KEY_A, true));
    b.step(Event::SendFailed);
    b.step(Event::SendFailed);
    b.step(Event::HostConnected);
    b.step(Event::TrustDone);
    b.step(Event::Sent);
    // KEY_A is still down, but went down on the link that broke.
    assert!(matches!(
        b.step(key(KEY_LEFTALT, true)),
        Action::Send([0xA1, 0x01, modbit::L_GUI, 0, 0, 0, 0, 0, 0, 0])
    ));
    b.step(Event::Sent);
    assert!(matches!(b.step(key(KEY_A, false)), Action::NextKey));
    assert!(matches!(b.step(key(KEY_LEFTALT, false)), Action::Send(BLANK)));
}
