# rpi-hub

Plug a wired USB keyboard into a Raspberry Pi, and type on your Mac. The Pi grabs
the keyboard over evdev and presents itself to the Mac as a Bluetooth HID
keyboard; the Mac needs no software.

The library under `src/` holds the logic, verified with Verus. The program under
`app/` reads the keyboard, talks to BlueZ, and does what the library asks for.

| module | what |
|---|---|
| `keymap` | evdev key code -> USB HID usage; the Alt/GUI swap |
| `report` | 6-key-rollover state machine, boot-protocol reports |
| `input` | which device nodes are keyboards, which events are key transitions |
| `bt` | SDP record and report map, channel pairing, trust |
| `dial` | whom to knock on, and how long to wait in between |
| `bridge` | what to do next: wait, trust, send, read, stop |
| `descriptor` | what the report map declares, read as a host reads it |
| `history` | what a run of key events leaves held |
| `text` | numbers as text |

What is believed without proof: three calls into other crates, each behind a
small function that says what it expects of the call -- `destructure_key` and
`contains_key` in `input` (evdev), and `display_address` in `bt` (bluer).

A few things that the proofs establish:

* the report lists exactly the keys that are down, as long as no more than six
  were ever down at once; a seventh turns it into the rollover error, and any
  release after that clears it;
* after any run of events, no key that is up is reported, and the rollover error
  means that more than six keys are down;
* a key event is sent exactly when it changes the report, so whenever the bridge
  waits for a key, the host acts on what the keyboard holds -- and is never shown
  a key that is up;
* every link begins with a blank report, and nothing is held between links;
* losing the host leads to waiting for it, losing the keyboard to a stop;
* only pinned hosts are ever dialled, with at most 30 seconds between rounds.

`dbus` is named in `Cargo.toml` only to have bluer's D-Bus library built from its
bundled source.
