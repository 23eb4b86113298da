//! What comes from the wired keyboard: which device nodes are keyboards, and
//! which of their events are key transitions.
//!
//! A keyboard is usually more than one device node. Gaming keyboards split media
//! keys and extra keys onto a second HID interface, and grabbing only the main
//! node silently leaks those keys to the Pi's console.
use vstd::prelude::*;

use evdev::{AttributeSetRef, KeyCode};

use crate::keymap::evdev_codes::{KEY_A, KEY_ENTER, KEY_Z};

verus! {

/// The evdev event type of key events, `EV_KEY`.
pub const EV_KEY: u16 = 0x01;

/// The evdev key code type, a number in a struct of its own.
#[verifier::external_type_specification]
#[verifier::external_body]
pub struct ExKeyCode(KeyCode);

/// The evdev set of codes that a device supports.
#[verifier::external_type_specification]
#[verifier::external_body]
#[verifier::reject_recursive_types(T)]
pub struct ExAttributeSetRef<T>(AttributeSetRef<T>);

/// The numbers of the key codes in an evdev set.
pub uninterp spec fn key_codes(keys: &AttributeSetRef<KeyCode>) -> Set<u16>;

/// `AttributeSetRef::contains` of the `evdev` crate, on a key code given by its
/// number: it tells whether the code is in the set. A code past the end of the
/// set's bit array is simply not in it.
#[verifier::external_body]
fn contains_key(keys: &AttributeSetRef<KeyCode>, code: u16) -> (r: bool)
    ensures
        r == key_codes(keys).contains(code),
{
    keys.contains(KeyCode(code))
}

/// `InputEvent::destructure` of the `evdev` crate, on an event given by its
/// fields: it sorts events by their type, and hands the code and the value of a
/// key event -- one whose type is `EV_KEY` -- on unchanged. No other type of
/// event comes out as a key event.
#[verifier::external_body]
fn destructure_key(event_type: u16, code: u16, value: i32) -> (r: Option<(u16, i32)>)
    ensures
        r == if event_type == EV_KEY {
            Some((code, value))
        } else {
            None
        },
{
    match evdev::InputEvent::new(event_type, code, value).destructure() {
        evdev::EventSummary::Key(_, KeyCode(code), value) => Some((code, value)),
        _ => None,
    }
}

/// One key transition, already normalised out of evdev's event zoo.
#[derive(Debug, Clone, Copy, PartialEq, Eq, Structural)]
pub struct KeyEvent {
    pub code: u16,
    pub pressed: bool,
}

impl KeyEvent {
    /// The key transition that an evdev event stands for, if it is one.
    ///
    /// EV_SYN and EV_MSC frames are interleaved with real keys; only EV_KEY
    /// matters. evdev value 2 is autorepeat, which is dropped -- a real HID
    /// keyboard does not transmit repeats, the host generates them. Forwarding
    /// them doubles every held key.
    pub fn from_evdev(event_type: u16, code: u16, value: i32) -> (r: Option<KeyEvent>)
        ensures
            r == if event_type == EV_KEY && value == 0 {
                Some(KeyEvent { code, pressed: false })
            } else if event_type == EV_KEY && value == 1 {
                Some(KeyEvent { code, pressed: true })
            } else {
                None
            },
    {
        match destructure_key(event_type, code, value) {
            Some((code, value)) => {
                let pressed: bool = match value {
                    0 => false,
                    1 => true,
                    _ => return None,
                };
                Some(KeyEvent { code, pressed })
            },
            None => None,
        }
    }
}

/// A device node as the enumeration finds it: where it is, what the device
/// calls itself, and the keys it supports, if it has keys at all.
pub struct InputNode<'a, P> {
    pub path: P,
    pub name: Option<&'a str>,
    pub keys: Option<&'a AttributeSetRef<KeyCode>>,
}

/// Whether a device with these keys looks like a keyboard.
pub open spec fn looks_like_keyboard(keys: Option<&AttributeSetRef<KeyCode>>) -> bool {
    match keys {
        Some(keys) => key_codes(keys).contains(KEY_A) && key_codes(keys).contains(KEY_Z)
            && key_codes(keys).contains(KEY_ENTER),
        None => false,
    }
}

/// What a device is listed as: its name, or a stand-in where it has none.
pub open spec fn listed_name(name: Option<&str>) -> Seq<char> {
    match name {
        Some(name) => name@,
        None => "<unnamed>"@,
    }
}

/// The keyboards among `nodes`, in their order, each with the name that it is
/// listed under.
pub open spec fn keyboards<P>(nodes: Seq<InputNode<P>>) -> Seq<(P, Seq<char>)>
    decreases nodes.len(),
{
    if nodes.len() == 0 {
        seq![]
    } else {
        let before = keyboards(nodes.drop_last());
        let node = nodes.last();
        if looks_like_keyboard(node.keys) {
            before.push((node.path, listed_name(node.name)))
        } else {
            before
        }
    }
}

/// Does this device look like something that sends keystrokes?
///
/// `EV_KEY` alone is not enough -- mice, power buttons and lid switches all
/// report EV_KEY. Requiring a few keys that only a real keyboard has keeps those
/// out.
pub fn is_keyboard(keys: Option<&AttributeSetRef<KeyCode>>) -> (r: bool)
    ensures
        r == looks_like_keyboard(keys),
        r <==> match keys {
            Some(keys) => key_codes(keys).contains(KEY_A) && key_codes(keys).contains(KEY_Z)
                && key_codes(keys).contains(KEY_ENTER),
            None => false,
        },
{
    let Some(keys) = keys else {
        return false;
    };
    contains_key(keys, KEY_A) && contains_key(keys, KEY_Z) && contains_key(keys, KEY_ENTER)
}

/// The name to show for a device.
pub fn device_name(name: Option<&str>) -> (r: String)
    ensures
        r@ == listed_name(name),
        name matches Some(name) ==> r@ == name@,
        name is None ==> r@ == "<unnamed>"@,
{
    match name {
        Some(name) => name.to_owned(),
        None => "<unnamed>".to_owned(),
    }
}

/// Find every keyboard-ish node, for `--list` and for autodetection.
pub fn discover<P>(nodes: Vec<InputNode<P>>) -> (r: Vec<(P, String)>)
    ensures
        r@.len() == keyboards(nodes@).len(),
        forall|i: int|
            0 <= i < r@.len() ==> (#[trigger] r@[i]).0 == keyboards(nodes@)[i].0 && r@[i].1@
                == keyboards(nodes@)[i].1,
{
    let ghost all = nodes@;
    let mut found: Vec<(P, String)> = Vec::new();
    for node in it: nodes.into_iter()
        invariant
            it.seq() == all,
            found@.len() == keyboards(all.take(it.index())).len(),
            forall|i: int|
                0 <= i < found@.len() ==> (#[trigger] found@[i]).0 == keyboards(
                    all.take(it.index()),
                )[i].0 && found@[i].1@ == keyboards(all.take(it.index()))[i].1,
    {
        assert(all.take(it.index() + 1).drop_last() =~= all.take(it.index()));
        if is_keyboard(node.keys) {
            let name: String = device_name(node.name);
            found.push((node.path, name));
        }
    }
    assert(all.take(all.len() as int) =~= all);
    found
}

/// Whether `entry` lists `node`: the node looks like a keyboard, and the entry
/// has its path and the name it is listed under.
pub open spec fn lists<P>(entry: (P, Seq<char>), node: InputNode<P>) -> bool {
    looks_like_keyboard(node.keys) && entry.0 == node.path && entry.1 == listed_name(node.name)
}

/// Every node that looks like a keyboard is listed.
pub proof fn lemma_every_keyboard_is_listed<P>(nodes: Seq<InputNode<P>>, i: int)
    requires
        0 <= i < nodes.len(),
        looks_like_keyboard(nodes[i].keys),
    ensures
        exists|j: int|
            0 <= j < keyboards(nodes).len() && lists(#[trigger] keyboards(nodes)[j], nodes[i]),
    decreases nodes.len(),
{
    let rest = nodes.drop_last();
    if i == nodes.len() - 1 {
        assert(lists(keyboards(nodes)[keyboards(rest).len() as int], nodes[i]));
    } else {
        lemma_every_keyboard_is_listed(rest, i);
        let j = choose|j: int|
            0 <= j < keyboards(rest).len() && lists(#[trigger] keyboards(rest)[j], rest[i]);
        assert(lists(keyboards(nodes)[j], nodes[i]));
    }
}

/// Nothing but keyboards is listed: every entry is of a node that looks like
/// one.
pub proof fn lemma_only_keyboards_are_listed<P>(nodes: Seq<InputNode<P>>, j: int)
    requires
        0 <= j < keyboards(nodes).len(),
    ensures
        exists|i: int|
            0 <= i < nodes.len() && lists(keyboards(nodes)[j], #[trigger] nodes[i]),
    decreases nodes.len(),
{
    let rest = nodes.drop_last();
    if j < keyboards(rest).len() {
        lemma_only_keyboards_are_listed(rest, j);
        let i = choose|i: int|
            0 <= i < rest.len() && lists(keyboards(rest)[j], #[trigger] rest[i]);
        assert(lists(keyboards(nodes)[j], nodes[i]));
    } else {
        assert(lists(keyboards(nodes)[j], nodes[nodes.len() - 1]));
    }
}

/// A device looks like a keyboard exactly if it has keys and A, Z and Enter
/// (codes 30, 44 and 28) are among them, whatever else it has.
pub proof fn lemma_three_keys_make_a_keyboard(keys: &AttributeSetRef<KeyCode>)
    ensures
        looks_like_keyboard(Some(keys)) <==> key_codes(keys).contains(30) && key_codes(
            keys,
        ).contains(44) && key_codes(keys).contains(28),
        !looks_like_keyboard(None),
{
}

/// Whether a device looks like a keyboard rests on those three keys alone: two
/// devices that agree on them are judged alike.
pub proof fn lemma_other_keys_do_not_matter(
    keys: &AttributeSetRef<KeyCode>,
    others: &AttributeSetRef<KeyCode>,
)
    requires
        key_codes(keys).contains(30) == key_codes(others).contains(30),
        key_codes(keys).contains(44) == key_codes(others).contains(44),
        key_codes(keys).contains(28) == key_codes(others).contains(28),
    ensures
        looks_like_keyboard(Some(keys)) == looks_like_keyboard(Some(others)),
{
}

/// A device is listed under the name it gives itself, and under `<unnamed>` only
/// if it gives none.
pub proof fn lemma_devices_keep_their_names(name: &str)
    ensures
        listed_name(Some(name)) == name@,
        listed_name(None) == "<unnamed>"@,
{
}

/// A list of one node: its path and its name if the node has keys and A, Z and
/// Enter are among them, and nothing otherwise. No nodes, no list.
pub proof fn lemma_list_of_one<P>(node: InputNode<P>)
    ensures
        keyboards(Seq::<InputNode<P>>::empty()).len() == 0,
        ({
            let list = keyboards(seq![node]);
            match node.keys {
                Some(keys) => if key_codes(keys).contains(30) && key_codes(keys).contains(44)
                    && key_codes(keys).contains(28) {
                    &&& list.len() == 1
                    &&& list[0].0 == node.path
                    &&& list[0].1 == match node.name {
                        Some(name) => name@,
                        None => "<unnamed>"@,
                    }
                } else {
                    list.len() == 0
                },
                None => list.len() == 0,
            }
        }),
{
    assert(seq![node].drop_last() =~= Seq::<InputNode<P>>::empty());
    assert(seq![node].last() == node);
    reveal_with_fuel(keyboards, 2);
}

/// The list of some nodes and then others is the list of the first and then the
/// list of the others: each node is judged by itself, and the order is kept.
pub proof fn lemma_lists_join<P>(first: Seq<InputNode<P>>, then_: Seq<InputNode<P>>)
    ensures
        keyboards(first + then_) == keyboards(first) + keyboards(then_),
    decreases then_.len(),
{
    if then_.len() == 0 {
        assert(first + then_ =~= first);
        assert(keyboards(first) + keyboards(then_) =~= keyboards(first));
    } else {
        let rest = then_.drop_last();
        lemma_lists_join(first, rest);
        assert((first + then_).drop_last() =~= first + rest);
        assert((first + then_).last() == then_.last());
        assert(keyboards(first + then_) =~= keyboards(first) + keyboards(then_));
    }
}

} // verus!
