//! What the report map says, read the way a host reads it: as a HID report
//! descriptor made of short items.
use vstd::prelude::*;

use crate::bt::REPORT_MAP;
use crate::input::KeyEvent;
use crate::keymap::ModifierLayout;
use crate::report::{KEY_SLOTS, LAST_KEY_USAGE, REPORT_ID};

verus! {

/// The items that stay in force while a descriptor is read.
pub struct Items {
    pub report_id: int,
    pub usage_page: int,
    pub usage_min: int,
    pub usage_max: int,
    pub logical_min: int,
    pub logical_max: int,
    pub size: int,
    pub count: int,
}

/// One run of fields of a report: which way it travels, whether it is data or
/// padding, whether each usage has a field of its own (variable) or each field
/// holds the code of some usage (an array), and the items that were in force
/// where it was declared.
pub struct Fields {
    pub input: bool,
    pub constant: bool,
    pub variable: bool,
    pub items: Items,
}

impl Items {
    /// At the start of a descriptor.
    pub open spec fn none() -> Items {
        Items {
            report_id: 0,
            usage_page: 0,
            usage_min: 0,
            usage_max: 0,
            logical_min: 0,
            logical_max: 0,
            size: 0,
            count: 0,
        }
    }

    /// After an item with this tag and value. Usages are in force up to the next
    /// main item only.
    pub open spec fn after(self, tag: int, value: int) -> Items {
        if tag == 0x04 {
            Items { usage_page: value, ..self }
        } else if tag == 0x14 {
            Items { logical_min: value, ..self }
        } else if tag == 0x24 {
            Items { logical_max: value, ..self }
        } else if tag == 0x74 {
            Items { size: value, ..self }
        } else if tag == 0x84 {
            Items { report_id: value, ..self }
        } else if tag == 0x94 {
            Items { count: value, ..self }
        } else if tag == 0x18 {
            Items { usage_min: value, ..self }
        } else if tag == 0x28 {
            Items { usage_max: value, ..self }
        } else if tag == 0x80 || tag == 0x90 || tag == 0xA0 || tag == 0xC0 {
            Items { usage_min: 0, usage_max: 0, ..self }
        } else {
            self
        }
    }
}

/// The tag of the item at `at`: its first byte without the two bits of the size.
pub open spec fn tag_at(map: Seq<u8>, at: int) -> int {
    map[at] as int - map[at] as int % 4
}

/// How many bytes of data the item at `at` has.
pub open spec fn size_at(map: Seq<u8>, at: int) -> int {
    let size = map[at] as int % 4;
    if size == 3 {
        4
    } else {
        size
    }
}

/// The data of the item at `at`, little-endian.
pub open spec fn value_at(map: Seq<u8>, at: int) -> int {
    let size = size_at(map, at);
    if size == 0 {
        0
    } else if size == 1 {
        map[at + 1] as int
    } else if size == 2 {
        map[at + 1] as int + 0x100 * map[at + 2]
    } else {
        map[at + 1] as int + 0x100 * map[at + 2] + 0x1_0000 * map[at + 3] + 0x100_0000 * map[at + 4]
    }
}

/// The fields that a descriptor declares from `at` on, with `items` in force
/// there. An Input item (0x80) declares fields that travel to the host, an
/// Output item (0x90) fields that come back; bit 0 of its data marks padding, and
/// bit 1 tells variable fields from an array.
pub open spec fn fields_from(map: Seq<u8>, at: int, items: Items) -> Seq<Fields>
    decreases map.len() - at,
{
    if at < 0 || at >= map.len() || at + 1 + size_at(map, at) > map.len() {
        seq![]
    } else {
        let tag = tag_at(map, at);
        let value = value_at(map, at);
        let rest = fields_from(map, at + 1 + size_at(map, at), items.after(tag, value));
        if tag == 0x80 || tag == 0x90 {
            seq![
                Fields {
                    input: tag == 0x80,
                    constant: value % 2 == 1,
                    variable: value / 2 % 2 == 1,
                    items,
                },
            ] + rest
        } else {
            rest
        }
    }
}

/// The fields that a descriptor declares.
pub open spec fn declared_fields(map: Seq<u8>) -> Seq<Fields> {
    fields_from(map, 0, Items::none())
}

/// How many bits the fields that travel to the host take up.
pub open spec fn input_bits(fields: Seq<Fields>) -> int
    decreases fields.len(),
{
    if fields.len() == 0 {
        0
    } else {
        let bits = if fields.last().input {
            fields.last().items.size * fields.last().items.count
        } else {
            0
        };
        input_bits(fields.drop_last()) + bits
    }
}

/// The fields of a boot keyboard: on the way to the host eight one-bit fields,
/// one for each modifier, one byte of padding, and an array of one byte for each
/// key slot; and on the way back five one-bit fields, one for each LED, with
/// padding.
pub open spec fn keyboard_fields() -> Seq<Fields> {
    let modifiers = Items {
        report_id: REPORT_ID as int,
        usage_page: 0x07,
        usage_min: 0xE0,
        usage_max: 0xE7,
        logical_min: 0,
        logical_max: 1,
        size: 1,
        count: 8,
    };
    let reserved = Items { usage_min: 0, usage_max: 0, size: 8, count: 1, ..modifiers };
    let leds = Items { usage_page: 0x08, usage_min: 1, usage_max: 5, count: 5, ..modifiers };
    let led_padding = Items { usage_min: 0, usage_max: 0, size: 3, count: 1, ..leds };
    let keys = Items {
        usage_min: 0,
        usage_max: LAST_KEY_USAGE as int,
        logical_max: LAST_KEY_USAGE as int,
        size: 8,
        count: KEY_SLOTS as int,
        ..modifiers
    };
    seq![
        Fields { input: true, constant: false, variable: true, items: modifiers },
        Fields { input: true, constant: true, variable: false, items: reserved },
        Fields { input: false, constant: false, variable: true, items: leds },
        Fields { input: false, constant: true, variable: false, items: led_padding },
        Fields { input: true, constant: false, variable: false, items: keys },
    ]
}

/// The report map describes the report: it declares the fields of a boot
/// keyboard, all under the report ID of the wire frame.
pub proof fn lemma_report_map_describes_the_report()
    ensures
        declared_fields(REPORT_MAP@) == keyboard_fields(),
{
    reveal_with_fuel(fields_from, 35);
}

/// What the report map declares on the way to the host is eight bytes, the
/// length of a report.
pub proof fn lemma_report_map_declares_eight_bytes()
    ensures
        input_bits(declared_fields(REPORT_MAP@)) == 8 * 8,
{
    lemma_report_map_describes_the_report();
    let five = keyboard_fields();
    let four = five.drop_last();
    let three = four.drop_last();
    let two = three.drop_last();
    let one = two.drop_last();
    assert(one.drop_last().len() == 0);
    lemma_bits_of_last(one, 1, 8);
    lemma_bits_of_last(two, 8, 1);
    lemma_bits_of_last(three, 1, 5);
    lemma_bits_of_last(four, 3, 1);
    lemma_bits_of_last(five, 8, 6);
}

/// What the last run of fields adds.
proof fn lemma_bits_of_last(fields: Seq<Fields>, size: int, count: int)
    requires
        fields.len() > 0,
        fields.last().items.size == size,
        fields.last().items.count == count,
    ensures
        input_bits(fields) == input_bits(fields.drop_last()) + if fields.last().input {
            size * count
        } else {
            0
        },
{
}

/// After any run of key events, every key slot holds a value that the report map
/// allows there.
pub proof fn lemma_slots_fit_the_report_map(
    layout: ModifierLayout,
    events: Seq<KeyEvent>,
    slot: int,
)
    requires
        0 <= slot < KEY_SLOTS,
    ensures
        ({
            let items = declared_fields(REPORT_MAP@).last().items;
            items.logical_min <= crate::history::held_after(layout, events).slots[slot]
                <= items.logical_max
        }),
{
    lemma_report_map_describes_the_report();
    crate::history::lemma_no_key_that_is_up_is_reported(layout, events);
}

} // verus!
