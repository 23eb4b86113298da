//! What a run of key events leaves held.
use vstd::prelude::*;

use crate::input::KeyEvent;
use crate::keymap::modbit::{L_ALT, L_CTRL, L_GUI, L_SHIFT, R_ALT, R_CTRL, R_GUI, R_SHIFT};
use crate::keymap::{Mapped, ModifierLayout};
use crate::report::{Held, KEY_SLOTS, ROLLOVER_ERROR};

verus! {

/// What a keyboard holds after a run of key events.
pub open spec fn held_after(layout: ModifierLayout, events: Seq<KeyEvent>) -> Held
    decreases events.len(),
{
    if events.len() == 0 {
        Held::nothing(layout)
    } else {
        held_after(layout, events.drop_last()).after(events.last().code, events.last().pressed)
    }
}

/// The usage codes of the keys that are physically down: those that were
/// pressed and not released since.
pub open spec fn keys_down(layout: ModifierLayout, events: Seq<KeyEvent>) -> Set<u8>
    decreases events.len(),
{
    if events.len() == 0 {
        Set::empty()
    } else {
        let before = keys_down(layout, events.drop_last());
        match crate::keymap::mapped(events.last().code, layout) {
            Mapped::Key(usage) => if events.last().pressed {
                before.insert(usage)
            } else {
                before.remove(usage)
            },
            _ => before,
        }
    }
}

/// The bits of the modifiers that are physically down.
pub open spec fn modifiers_down(layout: ModifierLayout, events: Seq<KeyEvent>) -> Set<u8>
    decreases events.len(),
{
    if events.len() == 0 {
        Set::empty()
    } else {
        let before = modifiers_down(layout, events.drop_last());
        match crate::keymap::mapped(events.last().code, layout) {
            Mapped::Modifier(bit) => if events.last().pressed {
                before.insert(bit)
            } else {
                before.remove(bit)
            },
            _ => before,
        }
    }
}

/// One of the eight bits of the modifier byte.
pub open spec fn is_modifier_bit(bit: u8) -> bool {
    bit == L_CTRL || bit == L_SHIFT || bit == L_ALT || bit == L_GUI || bit == R_CTRL || bit
        == R_SHIFT || bit == R_ALT || bit == R_GUI
}

/// The modifier byte shows the modifiers that are down, after any run of events:
/// each bit is set exactly if its key was pressed and not released since.
pub proof fn lemma_modifier_byte_shows_modifiers_down(
    layout: ModifierLayout,
    events: Seq<KeyEvent>,
    bit: u8,
)
    requires
        is_modifier_bit(bit),
    ensures
        held_after(layout, events).modifiers & bit != 0 <==> modifiers_down(
            layout,
            events,
        ).contains(bit),
        held_after(layout, events).layout == layout,
    decreases events.len(),
{
    if events.len() == 0 {
        assert(0u8 & bit == 0) by (bit_vector);
    } else {
        let before = held_after(layout, events.drop_last());
        let last = events.last();
        lemma_modifier_byte_shows_modifiers_down(layout, events.drop_last(), bit);
        crate::keymap::lemma_modifier_is_single_bit(last.code, layout);
        if let Mapped::Modifier(changed) = crate::keymap::mapped(last.code, layout) {
            assert(bit != changed ==> bit & changed == 0) by (bit_vector)
                requires
                    is_modifier_bit(bit),
                    is_modifier_bit(changed),
            ;
            crate::report::lemma_modifier_event_touches_one_bit(before, changed, last.pressed, bit);
        }
    }
}

/// The slots hold the keys that are down: as long as no more than six keys were
/// ever down at once, the report lists exactly those that were pressed and not
/// released since, and there is no rollover.
pub proof fn lemma_slots_hold_the_keys_down(layout: ModifierLayout, events: Seq<KeyEvent>)
    requires
        forall|k: int|
            0 <= k <= events.len() ==> keys_down(layout, #[trigger] events.take(k)).len()
                <= KEY_SLOTS,
    ensures
        held_after(layout, events).valid(),
        held_after(layout, events).layout == layout,
        !held_after(layout, events).rolled_over(),
        keys_down(layout, events).finite(),
        !keys_down(layout, events).contains(0),
        forall|usage: u8|
            usage != 0 ==> (held_after(layout, events).slots.contains(usage) <==> keys_down(
                layout,
                events,
            ).contains(usage)),
    decreases events.len(),
{
    if events.len() == 0 {
        assert(Held::nothing(layout).slots[0] == 0);
    } else {
        let rest = events.drop_last();
        let last = events.last();
        assert forall|k: int| 0 <= k <= rest.len() implies keys_down(
            layout,
            #[trigger] rest.take(k),
        ).len() <= KEY_SLOTS by {
            assert(rest.take(k) =~= events.take(k));
        }
        assert(events.take(events.len() as int) =~= events);
        lemma_slots_hold_the_keys_down(layout, rest);
        let before = held_after(layout, rest);
        let down = keys_down(layout, rest);
        crate::report::lemma_events_keep_states_valid(before, last.code, last.pressed);
        crate::keymap::lemma_key_usage_range(last.code, layout);
        if let Mapped::Key(usage) = crate::keymap::mapped(last.code, layout) {
            crate::report::lemma_first_slot(before.slots, usage);
            crate::report::lemma_first_slot(before.slots, 0);
            if last.pressed {
                if !before.slots.contains(usage) && !before.slots.contains(0) {
                    lemma_six_slots_are_six_keys(before, down);
                }
                lemma_press_adds_one_key(before, usage);
            } else {
                lemma_release_drops_one_key(before, usage);
            }
        }
    }
}

/// After any run of events at all, no key that is up is reported: in rollover
/// more than six keys are down, and otherwise every key in the slots is down.
pub proof fn lemma_no_key_that_is_up_is_reported(layout: ModifierLayout, events: Seq<KeyEvent>)
    ensures
        held_after(layout, events).valid(),
        held_after(layout, events).in_usage_range(),
        held_after(layout, events).layout == layout,
        keys_down(layout, events).finite(),
        held_after(layout, events).rolled_over() ==> keys_down(layout, events).len() > KEY_SLOTS,
        !held_after(layout, events).rolled_over() ==> forall|usage: u8|
            usage != 0 && held_after(layout, events).slots.contains(usage) ==> keys_down(
                layout,
                events,
            ).contains(usage),
    decreases events.len(),
{
    if events.len() == 0 {
        assert(Held::nothing(layout).slots[0] == 0);
    } else {
        let rest = events.drop_last();
        let last = events.last();
        lemma_no_key_that_is_up_is_reported(layout, rest);
        let before = held_after(layout, rest);
        let down = keys_down(layout, rest);
        crate::report::lemma_events_keep_states_valid(before, last.code, last.pressed);
        crate::keymap::lemma_key_usage_range(last.code, layout);
        if let Mapped::Key(usage) = crate::keymap::mapped(last.code, layout) {
            crate::report::lemma_first_slot(before.slots, usage);
            crate::report::lemma_first_slot(before.slots, 0);
            if before.rolled_over() {
                crate::report::lemma_rollover_fills_and_drains(before, usage);
                assert(crate::report::all_slots(0)[0] == 0);
            } else if !last.pressed {
                lemma_release_drops_one_key(before, usage);
            } else if before.slots.contains(usage) || before.slots.contains(0) {
                lemma_press_adds_one_key(before, usage);
            } else {
                lemma_six_slots_are_six_keys(before, before.slots.to_set());
                let seven = before.slots.to_set().insert(usage);
                assert(seven.len() == KEY_SLOTS + 1);
                assert(seven.subset_of(down.insert(usage)));
                vstd::set_lib::lemma_len_subset(seven, down.insert(usage));
            }
        }
    }
}

/// Where no slot is free, six keys are down.
proof fn lemma_six_slots_are_six_keys(held: Held, down: Set<u8>)
    requires
        held.valid(),
        !held.rolled_over(),
        !held.slots.contains(0),
        !down.contains(0),
        forall|usage: u8| usage != 0 ==> (held.slots.contains(usage) <==> down.contains(usage)),
    ensures
        down.len() == KEY_SLOTS,
{
    assert forall|i: int| 0 <= i < KEY_SLOTS implies held.slots[i] != 0 by {
        assert(held.slots.contains(held.slots[i]));
    }
    assert(held.slots.no_duplicates());
    held.slots.unique_seq_to_set();
    assert(held.slots.to_set() =~= down);
}

/// A press that does not roll over adds its key to what the slots hold.
proof fn lemma_press_adds_one_key(held: Held, usage: u8)
    requires
        held.valid(),
        !held.rolled_over(),
        usage != 0,
        usage != ROLLOVER_ERROR,
        held.slots.contains(usage) || held.slots.contains(0),
    ensures
        !held.with_key(usage).rolled_over(),
        forall|other: u8|
            other != 0 ==> (held.with_key(usage).slots.contains(other) <==> other == usage
                || held.slots.contains(other)),
{
    crate::report::lemma_first_slot(held.slots, usage);
    crate::report::lemma_first_slot(held.slots, 0);
    let after = held.with_key(usage);
    if !held.slots.contains(usage) {
        let slot = crate::report::first_slot(held.slots, 0);
        assert(after.slots =~= held.slots.update(slot, usage));
        assert(after.slots[slot] == usage);
        assert(crate::report::all_slots(ROLLOVER_ERROR)[slot]
            == ROLLOVER_ERROR);
        assert forall|other: u8| other != 0 implies (after.slots.contains(other) <==> other == usage
            || held.slots.contains(other)) by {
            if held.slots.contains(other) {
                let i = choose|i: int| 0 <= i < held.slots.len() && held.slots[i] == other;
                assert(after.slots[i] == other);
            }
        }
    }
}

/// A release takes its key, and no other, out of what the slots hold.
proof fn lemma_release_drops_one_key(held: Held, usage: u8)
    requires
        held.valid(),
        !held.rolled_over(),
        usage != 0,
        usage != ROLLOVER_ERROR,
    ensures
        !held.without_key(usage).rolled_over(),
        forall|other: u8|
            other != 0 ==> (held.without_key(usage).slots.contains(other) <==> other != usage
                && held.slots.contains(other)),
{
    crate::report::lemma_first_slot(held.slots, usage);
    let after = held.without_key(usage);
    if held.slots.contains(usage) {
        let slot = crate::report::first_slot(held.slots, usage);
        assert(after.slots[slot] == 0);
        assert(crate::report::all_slots(ROLLOVER_ERROR)[slot]
            == ROLLOVER_ERROR);
        assert forall|other: u8| other != 0 implies (after.slots.contains(other) <==> other != usage
            && held.slots.contains(other)) by {
            if other != usage && held.slots.contains(other) {
                let i = choose|i: int| 0 <= i < held.slots.len() && held.slots[i] == other;
                assert(after.slots[i] == other);
            }
        }
    }
}

/// Nothing is held before the first event, and each event acts on what the ones
/// before it left.
pub proof fn lemma_runs_grow_by_one_event(
    layout: ModifierLayout,
    events: Seq<KeyEvent>,
    key: KeyEvent,
)
    ensures
        held_after(layout, seq![]).report() == Seq::new(8, |i: int| 0u8),
        held_after(layout, events.push(key)) == held_after(layout, events).after(
            key.code,
            key.pressed,
        ),
{
    crate::report::lemma_nothing_held_is_a_blank_report(layout);
    assert(events.push(key).drop_last() =~= events);
}

/// One key more than six is a rollover: after any run of events, the press of
/// any key that is not in the slots, while no slot is free, turns every slot
/// into the rollover error, and leaves the modifiers.
pub proof fn lemma_one_key_too_many_rolls_over(
    layout: ModifierLayout,
    events: Seq<KeyEvent>,
    code: u16,
    usage: u8,
)
    requires
        crate::keymap::mapped(code, layout) == Mapped::Key(usage),
        !held_after(layout, events).slots.contains(usage),
        !held_after(layout, events).slots.contains(0),
    ensures
        ({
            let now = held_after(layout, events.push(KeyEvent { code, pressed: true }));
            &&& now.rolled_over()
            &&& forall|i: int| 0 <= i < 6 ==> now.slots[i] == 0x01
            &&& now.modifiers == held_after(layout, events).modifiers
        }),
{
    let before = held_after(layout, events);
    let key = KeyEvent { code, pressed: true };
    lemma_runs_grow_by_one_event(layout, events, key);
    lemma_no_key_that_is_up_is_reported(layout, events);
    let now = held_after(layout, events.push(key));
    assert forall|i: int| 0 <= i < 6 implies now.slots[i] == 0x01 by {
        crate::report::lemma_press_event(before, code, usage, i, 0);
    }
    crate::report::lemma_press_event(before, code, usage, 0, 0);
    crate::report::lemma_rollover_is_every_slot(now);
}

/// The seventh key down is a rollover: where no more than six keys were ever
/// down at once, the press that brings it to more shows the rollover error in
/// every slot.
pub proof fn lemma_seventh_key_down_rolls_over(
    layout: ModifierLayout,
    events: Seq<KeyEvent>,
    key: KeyEvent,
)
    requires
        forall|k: int|
            0 <= k <= events.len() ==> keys_down(layout, #[trigger] events.take(k)).len()
                <= KEY_SLOTS,
        keys_down(layout, events.push(key)).len() > KEY_SLOTS,
    ensures
        held_after(layout, events.push(key)).rolled_over(),
        forall|i: int|
            0 <= i < 6 ==> held_after(layout, events.push(key)).slots[i] == 0x01,
{
    let before = held_after(layout, events);
    let down = keys_down(layout, events);
    lemma_slots_hold_the_keys_down(layout, events);
    assert(events.push(key).drop_last() =~= events);
    assert(events.take(events.len() as int) =~= events);
    assert(down.len() <= KEY_SLOTS);
    crate::keymap::lemma_key_usage_range(key.code, layout);
    match crate::keymap::mapped(key.code, layout) {
        Mapped::Key(usage) => {
            assert(key.pressed && !down.contains(usage));
            assert(!before.slots.contains(0)) by {
                if before.slots.contains(0) {
                    lemma_free_slot_leaves_room(before, down);
                }
            }
            lemma_one_key_too_many_rolls_over(layout, events, key.code, usage);
            assert(key == KeyEvent { code: key.code, pressed: true });
        },
        _ => {},
    }
}

/// Where a slot is free, fewer than six keys are down.
proof fn lemma_free_slot_leaves_room(held: Held, down: Set<u8>)
    requires
        held.valid(),
        held.slots.contains(0),
        !down.contains(0),
        down.finite(),
        forall|usage: u8| usage != 0 ==> (held.slots.contains(usage) <==> down.contains(usage)),
    ensures
        down.len() < KEY_SLOTS,
{
    held.slots.lemma_cardinality_of_set();
    let all = held.slots.to_set();
    assert(all.contains(0));
    assert(all.remove(0) =~= down);
}

/// The press of a key, after any run of events that left a slot free: the key is
/// in the report, and everything that was in it still is.
pub proof fn lemma_press_is_reported(
    layout: ModifierLayout,
    events: Seq<KeyEvent>,
    code: u16,
    usage: u8,
    other: u8,
)
    requires
        crate::keymap::mapped(code, layout) == Mapped::Key(usage),
        held_after(layout, events).slots.contains(0),
        other != 0,
    ensures
        held_after(layout, events.push(KeyEvent { code, pressed: true })).slots.contains(other)
            <==> other == usage || held_after(layout, events).slots.contains(other),
{
    let before = held_after(layout, events);
    lemma_runs_grow_by_one_event(layout, events, KeyEvent { code, pressed: true });
    lemma_no_key_that_is_up_is_reported(layout, events);
    crate::keymap::lemma_key_usage_range(code, layout);
    crate::report::lemma_rollover_is_every_slot(before);
    lemma_press_adds_one_key(before, usage);
}

/// The release of a key, after any run of events without a rollover at its end:
/// the key is out of the report, and everything else that was in it still is.
pub proof fn lemma_release_is_reported(
    layout: ModifierLayout,
    events: Seq<KeyEvent>,
    code: u16,
    usage: u8,
    other: u8,
)
    requires
        crate::keymap::mapped(code, layout) == Mapped::Key(usage),
        !held_after(layout, events).rolled_over(),
        other != 0,
    ensures
        held_after(layout, events.push(KeyEvent { code, pressed: false })).slots.contains(other)
            <==> other != usage && held_after(layout, events).slots.contains(other),
{
    let before = held_after(layout, events);
    lemma_runs_grow_by_one_event(layout, events, KeyEvent { code, pressed: false });
    lemma_no_key_that_is_up_is_reported(layout, events);
    crate::keymap::lemma_key_usage_range(code, layout);
    lemma_release_drops_one_key(before, usage);
}

/// After any run of events there are six slots, and each is free, or holds the
/// rollover error 0x01 or a usage from 0x04 to 0x65.
pub proof fn lemma_slots_hold_usages(layout: ModifierLayout, events: Seq<KeyEvent>, slot: int)
    requires
        0 <= slot < 6,
    ensures
        ({
            let slots = held_after(layout, events).slots;
            &&& slots.len() == 6
            &&& slots[slot] == 0 || slots[slot] == 0x01 || 0x04 <= slots[slot] <= 0x65
        }),
{
    lemma_no_key_that_is_up_is_reported(layout, events);
}

/// After any run of events the slots hold the rollover error in all six places
/// or in none, and no key in two of them.
pub proof fn lemma_no_key_is_reported_twice(
    layout: ModifierLayout,
    events: Seq<KeyEvent>,
    i: int,
    j: int,
)
    requires
        0 <= i < 6,
        0 <= j < 6,
        i != j,
    ensures
        ({
            let slots = held_after(layout, events).slots;
            &&& slots[i] == 0x01 <==> slots[j] == 0x01
            &&& slots[i] == slots[j] ==> slots[i] == 0 || slots[i] == 0x01
        }),
{
    lemma_no_key_that_is_up_is_reported(layout, events);
}

} // verus!
