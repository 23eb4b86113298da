//! The logic of rpi-hub, a Raspberry Pi that turns a wired USB keyboard into a
//! Bluetooth one.
//!
//! Key events come in as Linux evdev codes and go out as HID boot-protocol
//! reports. `keymap` and `report` are the two ends of that; `input` sorts what
//! the kernel delivers; `bt` holds what is published to the host; `dial` and
//! `bridge` decide what to do next. `descriptor` and `history` state what the
//! reports mean.
pub mod bridge;
pub mod bt;
pub mod descriptor;
pub mod dial;
pub mod history;
pub mod input;
pub mod keymap;
pub mod report;
pub mod text;
