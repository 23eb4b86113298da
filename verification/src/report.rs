//! The HID boot-protocol keyboard report and the state machine behind it.
//!
//! A boot keyboard report is 8 bytes:
//!
//! ```text
//!   [0] modifier bitmask
//!   [1] reserved (always 0)
//!   [2..8] up to six simultaneously-held key usage codes
//! ```
//!
//! Six slots is the whole budget -- hence "6KRO". Real keyboards behave this way
//! and it is more than enough for typing, so there is deliberately no NKRO
//! descriptor: hosts routinely mis-parse nonstandard report maps, and macOS is
//! not a host worth gambling with.
use vstd::prelude::*;

use crate::keymap::{Mapped, ModifierLayout};

verus! {

/// Number of key slots in a boot-protocol report.
pub const KEY_SLOTS: usize = 6;

/// HID usage code meaning "too many keys held at once".
pub const ROLLOVER_ERROR: u8 = 0x01;

/// HIDP header: DATA | Input.
pub const HIDP_DATA_INPUT: u8 = 0xA1;

/// Report ID, matching the `85 01` in the report map.
pub const REPORT_ID: u8 = 0x01;

/// The smallest usage code that stands for a key rather than for "no key" or an
/// error.
pub const FIRST_KEY_USAGE: u8 = 0x04;

/// The largest usage code that the report map leaves room for.
pub const LAST_KEY_USAGE: u8 = 0x65;

/// Where `usage` first stands among the six slots; `KEY_SLOTS` if it does not.
pub open spec fn first_slot(slots: Seq<u8>, usage: u8) -> int {
    if slots[0] == usage {
        0
    } else if slots[1] == usage {
        1
    } else if slots[2] == usage {
        2
    } else if slots[3] == usage {
        3
    } else if slots[4] == usage {
        4
    } else if slots[5] == usage {
        5
    } else {
        6
    }
}

/// What a keyboard is holding: the modifier byte, the six key slots (0 for a
/// free one), and the layout that decides what the modifier keys set.
#[verifier::ext_equal]
pub struct Held {
    pub modifiers: u8,
    pub slots: Seq<u8>,
    pub layout: ModifierLayout,
}

/// Six slots that all hold `usage`.
pub open spec fn all_slots(usage: u8) -> Seq<u8> {
    seq![usage, usage, usage, usage, usage, usage]
}

impl Held {
    /// Nothing held.
    pub open spec fn nothing(layout: ModifierLayout) -> Held {
        Held { modifiers: 0, slots: all_slots(0), layout }
    }

    /// Whether more keys went down than there are slots.
    pub open spec fn rolled_over(self) -> bool {
        self.slots == all_slots(ROLLOVER_ERROR)
    }

    /// What every keyboard state satisfies: six slots, which either all hold the
    /// rollover error, or hold it nowhere, and no key twice.
    pub open spec fn valid(self) -> bool {
        &&& self.slots.len() == KEY_SLOTS
        &&& self.rolled_over() || {
            &&& forall|i: int| 0 <= i < KEY_SLOTS ==> self.slots[i] != ROLLOVER_ERROR
            &&& forall|i: int, j: int|
                0 <= i < j < KEY_SLOTS && self.slots[i] != 0 ==> self.slots[i] != self.slots[j]
        }
    }

    /// Whether every slot holds no key, the rollover error, or a key that the
    /// report map leaves room for.
    pub open spec fn in_usage_range(self) -> bool {
        forall|i: int|
            0 <= i < KEY_SLOTS ==> self.slots[i] == 0 || self.slots[i] == ROLLOVER_ERROR
                || FIRST_KEY_USAGE <= #[trigger] self.slots[i] <= LAST_KEY_USAGE
    }

    /// After a modifier key set or cleared `bit`.
    pub open spec fn with_modifier(self, bit: u8, pressed: bool) -> Held {
        let modifiers = if pressed {
            self.modifiers | bit
        } else {
            self.modifiers & !bit
        };
        Held { modifiers, ..self }
    }

    /// After a press of the key `usage`: a key that is held already changes
    /// nothing; any other takes the first free slot, and where there is none the
    /// whole array turns into the rollover error.
    pub open spec fn with_key(self, usage: u8) -> Held {
        let slots = if first_slot(self.slots, usage) < KEY_SLOTS {
            self.slots
        } else if first_slot(self.slots, 0) < KEY_SLOTS {
            self.slots.update(first_slot(self.slots, 0), usage)
        } else {
            all_slots(ROLLOVER_ERROR)
        };
        Held { slots, ..self }
    }

    /// After a release of the key `usage`: out of rollover every slot is freed,
    /// as nothing says which keys are still down; otherwise the key's own slot
    /// is, and the others stay where they are.
    pub open spec fn without_key(self, usage: u8) -> Held {
        let slots = if self.rolled_over() {
            all_slots(0)
        } else if first_slot(self.slots, usage) < KEY_SLOTS {
            self.slots.update(first_slot(self.slots, usage), 0)
        } else {
            self.slots
        };
        Held { slots, ..self }
    }

    /// After the key event (`code`, `pressed`).
    pub open spec fn after(self, code: u16, pressed: bool) -> Held {
        match crate::keymap::mapped(code, self.layout) {
            Mapped::Modifier(bit) => self.with_modifier(bit, pressed),
            Mapped::Key(usage) => if pressed {
                self.with_key(usage)
            } else {
                self.without_key(usage)
            },
            Mapped::Ignored => self,
        }
    }

    /// The 8-byte boot report.
    pub open spec fn report(self) -> Seq<u8> {
        seq![self.modifiers, 0u8] + self.slots
    }

    /// The report as it travels: HIDP header, report ID, then the report.
    pub open spec fn wire_report(self) -> Seq<u8> {
        seq![HIDP_DATA_INPUT, REPORT_ID] + self.report()
    }
}

/// Tracks which keys are currently held, and renders boot-protocol reports.
#[derive(Debug)]
pub struct KeyboardState {
    modifiers: u8,
    keys: [u8; KEY_SLOTS],
    layout: ModifierLayout,
}

impl View for KeyboardState {
    type V = Held;

    closed spec fn view(&self) -> Held {
        Held { modifiers: self.modifiers, slots: self.keys@, layout: self.layout }
    }
}

impl Clone for KeyboardState {
    fn clone(&self) -> (r: Self)
        ensures
            r@ == self@,
    {
        proof {
            use_type_invariant(self);
        }
        KeyboardState { modifiers: self.modifiers, keys: self.keys, layout: self.layout }
    }
}

impl Default for KeyboardState {
    fn default() -> (r: Self)
        ensures
            r@ == Held::nothing(ModifierLayout::MacPositional),
    {
        KeyboardState::new(ModifierLayout::default())
    }
}

impl PartialEq for KeyboardState {
    fn eq(&self, other: &Self) -> (r: bool) {
        let mut same: bool = self.modifiers == other.modifiers && self.layout == other.layout;
        let mut i: usize = 0;
        while i < KEY_SLOTS
            invariant
                i <= KEY_SLOTS,
                same <==> self.modifiers == other.modifiers && self.layout == other.layout && (
                forall|j: int| 0 <= j < i ==> self.keys@[j] == other.keys@[j]),
            decreases KEY_SLOTS - i,
        {
            same = same && self.keys[i] == other.keys[i];
            i += 1;
        }
        proof {
            if same {
                assert(self@ =~= other@);
            } else if self@ == other@ {
                assert(forall|j: int| 0 <= j < KEY_SLOTS ==> self@.slots[j] == other@.slots[j]);
            }
        }
        same
    }
}

impl vstd::std_specs::cmp::PartialEqSpecImpl for KeyboardState {
    open spec fn obeys_eq_spec() -> bool {
        true
    }

    open spec fn eq_spec(&self, other: &Self) -> bool {
        self@ == other@
    }
}

impl Eq for KeyboardState {

}

impl KeyboardState {
    #[verifier::type_invariant]
    closed spec fn holds_valid_slots(&self) -> bool {
        self@.valid()
    }

    /// A keyboard that holds nothing.
    pub fn new(layout: ModifierLayout) -> (r: Self)
        ensures
            r@ == Held::nothing(layout),
            r@.valid(),
    {
        let keys: [u8; KEY_SLOTS] = [0, 0, 0, 0, 0, 0];
        assert(keys@ =~= all_slots(0));
        KeyboardState { modifiers: 0, keys, layout }
    }

    /// Apply an evdev key event.
    ///
    /// `pressed` is the evdev value: `true` for press, `false` for release.
    /// Autorepeat (evdev value 2) must NOT be routed here -- a real HID keyboard
    /// does not transmit repeats, the host synthesises them. Forwarding repeats
    /// produces doubled characters.
    ///
    /// Returns `true` if the visible state changed and a new report should be
    /// sent. Redundant events (a press for a key already held, a press of yet
    /// another key in rollover) return `false`, so nothing is sent rather than
    /// spamming the interrupt channel.
    pub fn apply(&mut self, evdev_code: u16, pressed: bool) -> (changed: bool)
        ensures
            final(self)@ == old(self)@.after(evdev_code, pressed),
            changed <==> final(self)@.report() != old(self)@.report(),
            final(self)@.valid(),
    {
        proof {
            use_type_invariant(&*self);
            lemma_reports_tell_states_apart(self@, self@.after(evdev_code, pressed));
            crate::keymap::lemma_key_usage_range(evdev_code, self@.layout);
        }
        match crate::keymap::map(evdev_code, self.layout) {
            Mapped::Modifier(bit) => {
                let before: u8 = self.modifiers;
                if pressed {
                    self.modifiers = self.modifiers | bit;
                } else {
                    self.modifiers = self.modifiers & !bit;
                }
                self.modifiers != before
            },
            Mapped::Key(usage) => {
                if pressed {
                    self.press(usage)
                } else {
                    self.release(usage)
                }
            },
            Mapped::Ignored => false,
        }
    }

    /// Where `usage` first stands among the slots.
    fn find(&self, usage: u8) -> (r: Option<usize>)
        ensures
            r matches Some(i) ==> i < KEY_SLOTS && i == first_slot(self@.slots, usage),
            r is None ==> first_slot(self@.slots, usage) == KEY_SLOTS,
    {
        let mut i: usize = 0;
        while i < KEY_SLOTS
            invariant
                i <= KEY_SLOTS,
                forall|j: int| 0 <= j < i ==> self@.slots[j] != usage,
            decreases KEY_SLOTS - i,
        {
            if self.keys[i] == usage {
                return Some(i);
            }
            i += 1;
        }
        None
    }

    /// Press the key `usage`. The rollover error is no key, and must not be put
    /// into a slot as if it were one. Returns `true` if the visible state
    /// changed.
    ///
    /// Where the key was not held and a slot was free, its release undoes this.
    pub fn press(&mut self, usage: u8) -> (changed: bool)
        requires
            usage != ROLLOVER_ERROR || !old(self)@.slots.contains(0),
        ensures
            final(self)@ == old(self)@.with_key(usage),
            changed <==> final(self)@ != old(self)@,
            changed <==> final(self)@.report() != old(self)@.report(),
            final(self)@.valid(),
            !old(self)@.slots.contains(usage) && old(self)@.slots.contains(0) ==> changed
                && final(self)@.without_key(usage) == old(self)@,
    {
        proof {
            use_type_invariant(&*self);
            lemma_first_slot(self@.slots, usage);
            lemma_first_slot(self@.slots, 0);
            lemma_reports_tell_states_apart(self@, self@.with_key(usage));
            if !self@.slots.contains(usage) && self@.slots.contains(0) {
                lemma_key_release_undoes_key_press(self@, usage);
            }
        }
        if self.find(usage).is_some() {
            return false;  // already held
        }
        let mut keys: [u8; KEY_SLOTS] = self.keys;
        if let Some(slot) = self.find(0) {
            keys[slot] = usage;
            self.keys = keys;
            true
        } else {
            // More than six keys down. Per the HID spec the entire array is
            // filled with the rollover-error code, not just the overflowing key.
            let changed: bool = self.keys[0] != ROLLOVER_ERROR;
            self.keys = [
                ROLLOVER_ERROR,
                ROLLOVER_ERROR,
                ROLLOVER_ERROR,
                ROLLOVER_ERROR,
                ROLLOVER_ERROR,
                ROLLOVER_ERROR,
            ];
            changed
        }
    }

    /// Release the key `usage`. Returns `true` if there was something to let go
    /// of; of a key -- any usage but 0, which marks a free slot -- that is to say
    /// that the visible state changed.
    pub fn release(&mut self, usage: u8) -> (changed: bool)
        ensures
            final(self)@ == old(self)@.without_key(usage),
            changed <==> old(self)@.rolled_over() || old(self)@.slots.contains(usage),
            usage != 0 || old(self)@.rolled_over() ==> (changed <==> final(self)@ != old(self)@),
            usage != 0 || old(self)@.rolled_over() ==> (changed <==> final(self)@.report() != old(
                self,
            )@.report()),
            final(self)@.valid(),
    {
        proof {
            use_type_invariant(&*self);
            lemma_first_slot(self@.slots, usage);
            lemma_reports_tell_states_apart(self@, self@.without_key(usage));
        }
        // In rollover the array holds error codes rather than real usages, so
        // nothing says which slot this key occupied. Clear it and let the
        // still-held keys re-register on their next event.
        if self.keys[0] == ROLLOVER_ERROR {
            self.keys = [0, 0, 0, 0, 0, 0];
            return true;
        }
        match self.find(usage) {
            Some(slot) => {
                let mut keys: [u8; KEY_SLOTS] = self.keys;
                keys[slot] = 0;
                self.keys = keys;
                true
            },
            None => false,
        }
    }

    /// Forget every held key and modifier.
    ///
    /// Sent before tearing down a connection: without it the Mac is left holding
    /// whatever was down at the moment the link dropped, which in practice means
    /// a Command key stuck forever.
    pub fn release_all(&mut self) -> (changed: bool)
        ensures
            final(self)@ == Held::nothing(old(self)@.layout),
            changed <==> final(self)@.report() != old(self)@.report(),
            final(self)@.valid(),
    {
        proof {
            use_type_invariant(&*self);
            lemma_reports_tell_states_apart(self@, Held::nothing(self@.layout));
        }
        let mut changed: bool = self.modifiers != 0;
        let mut i: usize = 0;
        while i < KEY_SLOTS
            invariant
                i <= KEY_SLOTS,
                self@ == old(self)@,
                !changed <==> self@.modifiers == 0 && (forall|j: int|
                    0 <= j < i ==> self.keys@[j] == 0),
            decreases KEY_SLOTS - i,
        {
            changed = changed || self.keys[i] != 0;
            i += 1;
        }
        assert(!changed ==> self@ =~= Held::nothing(self@.layout));
        self.modifiers = 0;
        self.keys = [0, 0, 0, 0, 0, 0];
        changed
    }

    /// The bare 8-byte boot report.
    pub fn report(&self) -> (r: [u8; 8])
        ensures
            r@ == self@.report(),
            self@.valid(),
    {
        proof {
            use_type_invariant(self);
        }
        let k: [u8; KEY_SLOTS] = self.keys;
        // Byte 1 is reserved.
        [self.modifiers, 0, k[0], k[1], k[2], k[3], k[4], k[5]]
    }

    /// The report framed for the L2CAP interrupt channel: HIDP header, report
    /// ID, then the report itself.
    pub fn wire_report(&self) -> (r: [u8; 10])
        ensures
            r@ == self@.wire_report(),
            self@.valid(),
    {
        proof {
            use_type_invariant(self);
        }
        let r: [u8; 8] = self.report();
        [HIDP_DATA_INPUT, REPORT_ID, r[0], r[1], r[2], r[3], r[4], r[5], r[6], r[7]]
    }
}

/// A report shows all that is held: two states under one layout are the
/// same exactly where their reports are.
pub proof fn lemma_reports_tell_states_apart(a: Held, b: Held)
    requires
        a.slots.len() == KEY_SLOTS,
        b.slots.len() == KEY_SLOTS,
        a.layout == b.layout,
    ensures
        a == b <==> a.report() == b.report(),
{
    if a.report() == b.report() {
        assert(a.modifiers == a.report()[0]);
        assert(b.modifiers == b.report()[0]);
        assert forall|i: int| 0 <= i < KEY_SLOTS implies a.slots[i] == b.slots[i] by {
            assert(a.slots[i] == a.report()[i + 2]);
            assert(b.slots[i] == b.report()[i + 2]);
        }
        assert(a =~= b);
    }
}

/// `first_slot` is the first of the six slots to hold the usage, and is
/// `KEY_SLOTS` exactly where none does.
pub proof fn lemma_first_slot(slots: Seq<u8>, usage: u8)
    requires
        slots.len() == KEY_SLOTS,
    ensures
        0 <= first_slot(slots, usage) <= KEY_SLOTS,
        first_slot(slots, usage) < KEY_SLOTS <==> slots.contains(usage),
        first_slot(slots, usage) < KEY_SLOTS ==> slots[first_slot(slots, usage)] == usage,
        forall|j: int| 0 <= j < first_slot(slots, usage) ==> slots[j] != usage,
{
    if slots.contains(usage) {
        let i = choose|i: int| 0 <= i < slots.len() && slots[i] == usage;
        assert(first_slot(slots, usage) <= i);
    }
}

/// Every event leads from a valid state to a valid state: no key ever stands in
/// two slots, and a rollover is always a rollover of the whole array. And no
/// event brings in a key that the report map leaves no room for.
pub proof fn lemma_events_keep_states_valid(held: Held, code: u16, pressed: bool)
    requires
        held.valid(),
    ensures
        held.after(code, pressed).valid(),
        held.in_usage_range() ==> held.after(code, pressed).in_usage_range(),
        held.after(code, pressed).layout == held.layout,
{
    crate::keymap::lemma_key_usage_range(code, held.layout);
}

/// Modifiers survive key traffic, and keys survive modifier traffic: a key
/// event leaves the modifier byte alone, a modifier event the slots, and an
/// event of an unmapped code leaves everything.
pub proof fn lemma_keys_and_modifiers_do_not_disturb_each_other(
    held: Held,
    code: u16,
    pressed: bool,
)
    ensures
        !(crate::keymap::mapped(code, held.layout) is Modifier) ==> held.after(
            code,
            pressed,
        ).modifiers == held.modifiers,
        !(crate::keymap::mapped(code, held.layout) is Key) ==> held.after(code, pressed).slots
            == held.slots,
{
}

/// A repeated event changes nothing: pressing what was just pressed, or
/// releasing what was just released, leaves the state as it is.
pub proof fn lemma_repeated_event_changes_nothing(held: Held, code: u16, pressed: bool)
    requires
        held.valid(),
    ensures
        held.after(code, pressed).after(code, pressed) == held.after(code, pressed),
{
    crate::keymap::lemma_key_usage_range(code, held.layout);
    let m = held.modifiers;
    match crate::keymap::mapped(code, held.layout) {
        Mapped::Modifier(bit) => {
            assert((m | bit) | bit == m | bit && (m & !bit) & !bit == m & !bit) by (bit_vector);
        },
        Mapped::Key(usage) => {
            lemma_first_slot(held.slots, usage);
            lemma_first_slot(held.slots, 0);
            if pressed {
                let once = held.with_key(usage);
                lemma_first_slot(once.slots, usage);
                lemma_first_slot(once.slots, 0);
                if !held.slots.contains(usage) && held.slots.contains(0) {
                    assert(once.slots[first_slot(held.slots, 0)] == usage);
                }
            } else {
                let once = held.without_key(usage);
                lemma_first_slot(once.slots, usage);
            }
            assert(held.after(code, pressed).after(code, pressed) =~= held.after(code, pressed));
        },
        Mapped::Ignored => {},
    }
}

/// The release of a key undoes its press: a key that was not held, pressed while
/// a slot is free, changes the report; released again it changes it back, in the
/// same slot.
pub proof fn lemma_key_release_undoes_key_press(held: Held, usage: u8)
    requires
        held.valid(),
        usage != ROLLOVER_ERROR,
        !held.slots.contains(usage),
        held.slots.contains(0),
    ensures
        held.with_key(usage).without_key(usage) == held,
        held.with_key(usage).report() != held.report(),
        first_slot(held.with_key(usage).slots, usage) == first_slot(held.slots, 0),
{
    lemma_first_slot(held.slots, usage);
    lemma_first_slot(held.slots, 0);
    let pressed = held.with_key(usage);
    lemma_first_slot(pressed.slots, usage);
    let slot = first_slot(held.slots, 0);
    assert(pressed.slots[slot] == usage);
    assert(first_slot(pressed.slots, usage) == slot);
    assert(!pressed.rolled_over()) by {
        assert(all_slots(ROLLOVER_ERROR)[slot] == ROLLOVER_ERROR);
    }
    assert(pressed.without_key(usage) =~= held);
    lemma_reports_tell_states_apart(held, pressed);
}

/// A release undoes a press: a key or modifier that was not held, pressed while
/// a slot is free and released again, leaves the state as it was.
pub proof fn lemma_release_undoes_press(held: Held, code: u16)
    requires
        held.valid(),
        match crate::keymap::mapped(code, held.layout) {
            Mapped::Modifier(bit) => held.modifiers & bit == 0,
            Mapped::Key(usage) => !held.slots.contains(usage) && held.slots.contains(0),
            Mapped::Ignored => true,
        },
    ensures
        held.after(code, true).after(code, false) == held,
{
    crate::keymap::lemma_key_usage_range(code, held.layout);
    let m = held.modifiers;
    match crate::keymap::mapped(code, held.layout) {
        Mapped::Modifier(bit) => {
            assert(m & bit == 0 ==> (m | bit) & !bit == m) by (bit_vector);
        },
        Mapped::Key(usage) => {
            lemma_key_release_undoes_key_press(held, usage);
        },
        Mapped::Ignored => {},
    }
}

/// Keys do not shuffle: outside rollover, a release leaves every slot that held
/// something else, and a press into a free slot leaves every slot that held a
/// key.
pub proof fn lemma_neighbours_stay_put(held: Held, usage: u8, slot: int)
    requires
        held.valid(),
        0 <= slot < KEY_SLOTS,
    ensures
        !held.rolled_over() && held.slots[slot] != usage ==> held.without_key(usage).slots[slot]
            == held.slots[slot],
        held.slots.contains(0) && held.slots[slot] != 0 ==> held.with_key(usage).slots[slot]
            == held.slots[slot],
{
    lemma_first_slot(held.slots, usage);
    lemma_first_slot(held.slots, 0);
}

/// A pressed key is in the report: unless the press rolls over, the key holds a
/// slot afterwards; and a released key holds none.
pub proof fn lemma_key_events_show(held: Held, usage: u8)
    requires
        held.valid(),
        usage != 0,
    ensures
        held.slots.contains(usage) || held.slots.contains(0) ==> held.with_key(
            usage,
        ).slots.contains(usage),
        !held.without_key(usage).slots.contains(usage),
{
    lemma_first_slot(held.slots, usage);
    lemma_first_slot(held.slots, 0);
    let slot = first_slot(held.slots, 0);
    if !held.slots.contains(usage) && held.slots.contains(0) {
        assert(held.with_key(usage).slots[slot] == usage);
    }
}

/// Six is the whole budget: one more key on top of six turns the array into the
/// rollover error; in rollover a press changes nothing more, and the release of
/// any key frees every slot, so that no phantom key is left behind.
pub proof fn lemma_rollover_fills_and_drains(held: Held, usage: u8)
    requires
        held.valid(),
    ensures
        !held.slots.contains(usage) && !held.slots.contains(0) ==> held.with_key(
            usage,
        ).rolled_over(),
        held.rolled_over() ==> held.with_key(usage) == held,
        held.rolled_over() ==> held.without_key(usage).slots == all_slots(0),
{
    lemma_first_slot(held.slots, usage);
    lemma_first_slot(held.slots, 0);
}

/// A modifier event sets or clears its own bit and no other.
pub proof fn lemma_modifier_event_touches_one_bit(held: Held, bit: u8, pressed: bool, other: u8)
    ensures
        other & bit == 0 ==> held.with_modifier(bit, pressed).modifiers & other == held.modifiers
            & other,
        pressed ==> held.with_modifier(bit, pressed).modifiers & bit == bit,
        !pressed ==> held.with_modifier(bit, pressed).modifiers & bit == 0,
{
    let m = held.modifiers;
    assert(other & bit == 0 ==> (m | bit) & other == m & other && (m & !bit) & other == m & other)
        by (bit_vector);
    assert((m | bit) & bit == bit && (m & !bit) & bit == 0) by (bit_vector);
}

/// After everything is released the report is blank, whatever was held.
pub proof fn lemma_nothing_held_is_a_blank_report(layout: ModifierLayout)
    ensures
        Held::nothing(layout).report() == Seq::new(8, |i: int| 0u8),
        Held::nothing(layout).wire_report() == seq![HIDP_DATA_INPUT, REPORT_ID] + Seq::new(
            8,
            |i: int| 0u8,
        ),
{
    assert(Held::nothing(layout).report() =~= Seq::new(8, |i: int| 0u8));
}

/// A report is eight bytes with the second one zero, and a wire report is the
/// report behind the two bytes of its frame.
pub proof fn lemma_report_shape(held: Held)
    requires
        held.valid(),
    ensures
        held.report().len() == 8,
        held.report()[0] == held.modifiers,
        held.report()[1] == 0,
        held.report().skip(2) == held.slots,
        held.wire_report().len() == 10,
        held.wire_report()[0] == HIDP_DATA_INPUT,
        held.wire_report()[1] == REPORT_ID,
        held.wire_report().skip(2) == held.report(),
{
    assert(held.report().skip(2) =~= held.slots);
    assert(held.wire_report().skip(2) =~= held.report());
}

/// What a press of a key does, slot by slot. A key that is in a slot already
/// changes nothing. Another one goes into the first free slot and leaves the
/// others; where none is free, every slot turns into the rollover error 0x01.
/// The modifiers stay as they are.
pub proof fn lemma_key_press(held: Held, usage: u8, slot: int, first_free: int)
    requires
        held.slots.len() == KEY_SLOTS,
        0 <= slot < KEY_SLOTS,
    ensures
        ({
            let now = held.with_key(usage);
            &&& now.modifiers == held.modifiers
            &&& now.layout == held.layout
            &&& now.slots.len() == 6
            &&& held.slots.contains(usage) ==> now.slots[slot] == held.slots[slot]
            &&& !held.slots.contains(usage) && 0 <= first_free < 6 && held.slots[first_free] == 0
                && (forall|j: int| 0 <= j < first_free ==> held.slots[j] != 0) ==> now.slots[slot]
                == if slot == first_free {
                usage
            } else {
                held.slots[slot]
            }
            &&& !held.slots.contains(usage) && !held.slots.contains(0) ==> now.slots[slot] == 0x01
        }),
{
    lemma_first_slot(held.slots, usage);
    lemma_first_slot(held.slots, 0);
}

/// What a release of a key does, slot by slot. Where every slot holds the
/// rollover error 0x01, all are freed. Otherwise the first slot that holds the
/// key is freed, and the others stay as they are; and so do all of them where
/// none holds it. The modifiers stay as they are.
pub proof fn lemma_key_release(held: Held, usage: u8, slot: int, own: int)
    requires
        held.slots.len() == KEY_SLOTS,
        0 <= slot < KEY_SLOTS,
    ensures
        ({
            let now = held.without_key(usage);
            let rollover = forall|j: int| 0 <= j < 6 ==> held.slots[j] == 0x01;
            &&& now.modifiers == held.modifiers
            &&& now.layout == held.layout
            &&& now.slots.len() == 6
            &&& rollover ==> now.slots[slot] == 0
            &&& !rollover && 0 <= own < 6 && held.slots[own] == usage && (forall|j: int|
                0 <= j < own ==> held.slots[j] != usage) ==> now.slots[slot] == if slot == own {
                0
            } else {
                held.slots[slot]
            }
            &&& !rollover && !held.slots.contains(usage) ==> now.slots[slot] == held.slots[slot]
        }),
{
    lemma_first_slot(held.slots, usage);
    let rollover = forall|j: int| 0 <= j < 6 ==> held.slots[j] == 0x01;
    if rollover {
        assert(held.slots =~= all_slots(ROLLOVER_ERROR));
    } else {
        let j = choose|j: int| 0 <= j < 6 && held.slots[j] != 0x01;
        assert(all_slots(ROLLOVER_ERROR)[j] == 0x01);
    }
}

/// What the press of a key code does to the report, slot by slot: as
/// [`lemma_key_press`] says of a usage, for every code that maps to one.
pub proof fn lemma_press_event(held: Held, code: u16, usage: u8, slot: int, first_free: int)
    requires
        held.slots.len() == KEY_SLOTS,
        crate::keymap::mapped(code, held.layout) == Mapped::Key(usage),
        0 <= slot < KEY_SLOTS,
    ensures
        ({
            let now = held.after(code, true);
            &&& now.modifiers == held.modifiers
            &&& now.layout == held.layout
            &&& now.slots.len() == 6
            &&& held.slots.contains(usage) ==> now.slots[slot] == held.slots[slot]
            &&& !held.slots.contains(usage) && 0 <= first_free < 6 && held.slots[first_free] == 0
                && (forall|j: int| 0 <= j < first_free ==> held.slots[j] != 0) ==> now.slots[slot]
                == if slot == first_free {
                usage
            } else {
                held.slots[slot]
            }
            &&& !held.slots.contains(usage) && !held.slots.contains(0) ==> now.slots[slot] == 0x01
        }),
{
    lemma_key_press(held, usage, slot, first_free);
}

/// What the release of a key code does to the report, slot by slot: as
/// [`lemma_key_release`] says of a usage, for every code that maps to one.
pub proof fn lemma_release_event(held: Held, code: u16, usage: u8, slot: int, own: int)
    requires
        held.slots.len() == KEY_SLOTS,
        crate::keymap::mapped(code, held.layout) == Mapped::Key(usage),
        0 <= slot < KEY_SLOTS,
    ensures
        ({
            let now = held.after(code, false);
            let rollover = forall|j: int| 0 <= j < 6 ==> held.slots[j] == 0x01;
            &&& now.modifiers == held.modifiers
            &&& now.layout == held.layout
            &&& now.slots.len() == 6
            &&& rollover ==> now.slots[slot] == 0
            &&& !rollover && 0 <= own < 6 && held.slots[own] == usage && (forall|j: int|
                0 <= j < own ==> held.slots[j] != usage) ==> now.slots[slot] == if slot == own {
                0
            } else {
                held.slots[slot]
            }
            &&& !rollover && !held.slots.contains(usage) ==> now.slots[slot] == held.slots[slot]
        }),
{
    lemma_key_release(held, usage, slot, own);
}

/// What the event of a modifier code does: its own bit follows the key, and
/// every bit apart from it, every slot and the layout stay as they are.
pub proof fn lemma_modifier_event(held: Held, code: u16, bit: u8, pressed: bool, other: u8)
    requires
        crate::keymap::mapped(code, held.layout) == Mapped::Modifier(bit),
    ensures
        ({
            let now = held.after(code, pressed);
            &&& pressed ==> now.modifiers & bit == bit
            &&& !pressed ==> now.modifiers & bit == 0
            &&& other & bit == 0 ==> now.modifiers & other == held.modifiers & other
            &&& now.slots == held.slots
            &&& now.layout == held.layout
        }),
{
    lemma_modifier_event_touches_one_bit(held, bit, pressed, other);
}

/// The event of a code that maps to nothing leaves everything as it is.
pub proof fn lemma_ignored_event(held: Held, code: u16, pressed: bool)
    requires
        crate::keymap::mapped(code, held.layout) == Mapped::Ignored,
    ensures
        held.after(code, pressed).modifiers == held.modifiers,
        held.after(code, pressed).slots == held.slots,
        held.after(code, pressed).layout == held.layout,
{
}

/// Where nothing is held no modifier bit is set and all six slots are free, and
/// the layout is the one that was asked for.
pub proof fn lemma_nothing_held(layout: ModifierLayout, slot: int)
    ensures
        Held::nothing(layout).modifiers == 0,
        Held::nothing(layout).slots.len() == 6,
        0 <= slot < 6 ==> Held::nothing(layout).slots[slot] == 0,
        Held::nothing(layout).layout == layout,
        Held::nothing(layout).valid(),
{
}

/// The frame, byte by byte: 0xA1, 0x01, the modifiers, a zero, and the slots in
/// their order.
pub proof fn lemma_frame_bytes(held: Held, slot: int)
    requires
        held.slots.len() == KEY_SLOTS,
        0 <= slot < KEY_SLOTS,
    ensures
        held.report().len() == 8,
        held.report()[0] == held.modifiers,
        held.report()[1] == 0,
        held.report()[2 + slot] == held.slots[slot],
        held.wire_report().len() == 10,
        held.wire_report()[0] == 0xA1,
        held.wire_report()[1] == 0x01,
        held.wire_report()[2] == held.modifiers,
        held.wire_report()[3] == 0,
        held.wire_report()[4 + slot] == held.slots[slot],
{
}

/// A rollover is the error code 0x01 in all six slots, and nothing less.
pub proof fn lemma_rollover_is_every_slot(held: Held)
    requires
        held.slots.len() == KEY_SLOTS,
    ensures
        held.rolled_over() <==> forall|i: int| 0 <= i < 6 ==> held.slots[i] == 0x01,
{
    if forall|i: int| 0 <= i < 6 ==> held.slots[i] == 0x01 {
        assert(held.slots =~= all_slots(ROLLOVER_ERROR));
    } else {
        let i = choose|i: int| 0 <= i < 6 && held.slots[i] != 0x01;
        assert(all_slots(ROLLOVER_ERROR)[i] == 0x01);
    }
}

/// Two keyboards compare equal exactly if they show the same report and have
/// the same layout.
pub proof fn lemma_equal_keyboards(a: KeyboardState, b: KeyboardState)
    ensures
        vstd::std_specs::cmp::PartialEqSpec::eq_spec(&a, &b) <==> a@.report() == b@.report()
            && a@.layout == b@.layout,
{
    if a@.layout == b@.layout {
        lemma_reports_tell_states_apart(a@, b@);
    }
}

} // verus!
