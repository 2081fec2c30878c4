//! Event codes as the kernel numbers them, and the names a configuration may
//! use for them.

use vstd::prelude::*;
use crate::text::{chars_of, is_text};

verus! {

/// Event type of keys and buttons.
pub const EV_KEY: u16 = 1;

/// Event type of binary switches.
pub const EV_SW: u16 = 5;

pub const KEY_VOLUMEDOWN: u16 = 114;

pub const KEY_VOLUMEUP: u16 = 115;

pub const KEY_POWER: u16 = 116;

pub const KEY_PLAYPAUSE: u16 = 164;

pub const BTN_SOUTH: u16 = 304;

pub const BTN_EAST: u16 = 305;

pub const BTN_NORTH: u16 = 307;

pub const BTN_WEST: u16 = 308;

pub const BTN_TL: u16 = 310;

pub const BTN_TR: u16 = 311;

pub const BTN_TL2: u16 = 312;

pub const BTN_TR2: u16 = 313;

pub const BTN_SELECT: u16 = 314;

pub const BTN_START: u16 = 315;

pub const BTN_MODE: u16 = 316;

pub const BTN_THUMBL: u16 = 317;

pub const BTN_THUMBR: u16 = 318;

pub const BTN_DPAD_UP: u16 = 544;

pub const BTN_DPAD_DOWN: u16 = 545;

pub const BTN_DPAD_LEFT: u16 = 546;

pub const BTN_DPAD_RIGHT: u16 = 547;

pub const BTN_TRIGGER_HAPPY1: u16 = 704;

pub const BTN_TRIGGER_HAPPY2: u16 = 705;

pub const BTN_TRIGGER_HAPPY3: u16 = 706;

pub const BTN_TRIGGER_HAPPY4: u16 = 707;

pub const BTN_TRIGGER_HAPPY5: u16 = 708;

pub const BTN_TRIGGER_HAPPY6: u16 = 709;

pub const BTN_TRIGGER_HAPPY7: u16 = 710;

pub const BTN_TRIGGER_HAPPY8: u16 = 711;

pub const BTN_TRIGGER_HAPPY9: u16 = 712;

pub const BTN_TRIGGER_HAPPY10: u16 = 713;

pub const SW_HEADPHONE_INSERT: u16 = 2;

/// Identifies one physical input: the kernel's event type and the code within
/// that type. Two codes are the same input exactly when both numbers agree.
#[derive(Clone, Copy, Debug, PartialEq, Eq, Hash, Structural)]
pub struct EventCode {
    pub kind: u16,
    pub code: u16,
}

impl EventCode {
    pub open spec fn spec_key(code: u16) -> EventCode {
        EventCode { kind: EV_KEY, code }
    }

    /// The key or button numbered `code`.
    #[verifier::when_used_as_spec(spec_key)]
    pub fn key(code: u16) -> (r: EventCode)
        ensures
            r == Self::spec_key(code),
    {
        EventCode { kind: EV_KEY, code }
    }

    pub open spec fn spec_switch(code: u16) -> EventCode {
        EventCode { kind: EV_SW, code }
    }

    /// The switch numbered `code`.
    #[verifier::when_used_as_spec(spec_switch)]
    pub fn switch(code: u16) -> (r: EventCode)
        ensures
            r == Self::spec_switch(code),
    {
        EventCode { kind: EV_SW, code }
    }
}

/// The number of the key that a configuration calls `name`, for the names
/// that a configuration may use.
pub open spec fn key_number(name: Seq<char>) -> Option<u16> {
    if name == "BTN_DPAD_UP"@ {
        Some(BTN_DPAD_UP)
    } else if name == "BTN_DPAD_DOWN"@ {
        Some(BTN_DPAD_DOWN)
    } else if name == "BTN_DPAD_LEFT"@ {
        Some(BTN_DPAD_LEFT)
    } else if name == "BTN_DPAD_RIGHT"@ {
        Some(BTN_DPAD_RIGHT)
    } else if name == "BTN_TL"@ {
        Some(BTN_TL)
    } else if name == "BTN_TR"@ {
        Some(BTN_TR)
    } else if name == "BTN_TL2"@ {
        Some(BTN_TL2)
    } else if name == "BTN_TR2"@ {
        Some(BTN_TR2)
    } else if name == "BTN_SOUTH"@ {
        Some(BTN_SOUTH)
    } else if name == "BTN_EAST"@ {
        Some(BTN_EAST)
    } else if name == "BTN_NORTH"@ {
        Some(BTN_NORTH)
    } else if name == "BTN_WEST"@ {
        Some(BTN_WEST)
    } else if name == "BTN_THUMBL"@ {
        Some(BTN_THUMBL)
    } else if name == "BTN_THUMBR"@ {
        Some(BTN_THUMBR)
    } else if name == "BTN_SELECT"@ {
        Some(BTN_SELECT)
    } else if name == "BTN_START"@ {
        Some(BTN_START)
    } else if name == "BTN_MODE"@ {
        Some(BTN_MODE)
    } else if name == "BTN_TRIGGER_HAPPY1"@ {
        Some(BTN_TRIGGER_HAPPY1)
    } else if name == "BTN_TRIGGER_HAPPY2"@ {
        Some(BTN_TRIGGER_HAPPY2)
    } else if name == "BTN_TRIGGER_HAPPY3"@ {
        Some(BTN_TRIGGER_HAPPY3)
    } else if name == "BTN_TRIGGER_HAPPY4"@ {
        Some(BTN_TRIGGER_HAPPY4)
    } else if name == "BTN_TRIGGER_HAPPY5"@ {
        Some(BTN_TRIGGER_HAPPY5)
    } else if name == "BTN_TRIGGER_HAPPY6"@ {
        Some(BTN_TRIGGER_HAPPY6)
    } else if name == "BTN_TRIGGER_HAPPY7"@ {
        Some(BTN_TRIGGER_HAPPY7)
    } else if name == "BTN_TRIGGER_HAPPY8"@ {
        Some(BTN_TRIGGER_HAPPY8)
    } else if name == "BTN_TRIGGER_HAPPY9"@ {
        Some(BTN_TRIGGER_HAPPY9)
    } else if name == "BTN_TRIGGER_HAPPY10"@ {
        Some(BTN_TRIGGER_HAPPY10)
    } else if name == "KEY_VOLUMEUP"@ {
        Some(KEY_VOLUMEUP)
    } else if name == "KEY_VOLUMEDOWN"@ {
        Some(KEY_VOLUMEDOWN)
    } else if name == "KEY_PLAYPAUSE"@ {
        Some(KEY_PLAYPAUSE)
    } else if name == "KEY_POWER"@ {
        Some(KEY_POWER)
    } else {
        None
    }
}

/// The event code that `name` stands for: a key code for each known name,
/// nothing for any other text. Names are matched exactly, letter by letter.
pub open spec fn key_named(name: Seq<char>) -> Option<EventCode> {
    match key_number(name) {
        Some(code) => Some(EventCode::key(code)),
        None => None,
    }
}

/// Looks a key name up, given as its characters.
pub fn key_of_chars(name: &Vec<char>) -> (r: Option<EventCode>)
    ensures
        r == key_named(name@),
{
    let number: Option<u16> = if is_text(name, "BTN_DPAD_UP") {
        Some(BTN_DPAD_UP)
    } else if is_text(name, "BTN_DPAD_DOWN") {
        Some(BTN_DPAD_DOWN)
    } else if is_text(name, "BTN_DPAD_LEFT") {
        Some(BTN_DPAD_LEFT)
    } else if is_text(name, "BTN_DPAD_RIGHT") {
        Some(BTN_DPAD_RIGHT)
    } else if is_text(name, "BTN_TL") {
        Some(BTN_TL)
    } else if is_text(name, "BTN_TR") {
        Some(BTN_TR)
    } else if is_text(name, "BTN_TL2") {
        Some(BTN_TL2)
    } else if is_text(name, "BTN_TR2") {
        Some(BTN_TR2)
    } else if is_text(name, "BTN_SOUTH") {
        Some(BTN_SOUTH)
    } else if is_text(name, "BTN_EAST") {
        Some(BTN_EAST)
    } else if is_text(name, "BTN_NORTH") {
        Some(BTN_NORTH)
    } else if is_text(name, "BTN_WEST") {
        Some(BTN_WEST)
    } else if is_text(name, "BTN_THUMBL") {
        Some(BTN_THUMBL)
    } else if is_text(name, "BTN_THUMBR") {
        Some(BTN_THUMBR)
    } else if is_text(name, "BTN_SELECT") {
        Some(BTN_SELECT)
    } else if is_text(name, "BTN_START") {
        Some(BTN_START)
    } else if is_text(name, "BTN_MODE") {
        Some(BTN_MODE)
    } else if is_text(name, "BTN_TRIGGER_HAPPY1") {
        Some(BTN_TRIGGER_HAPPY1)
    } else if is_text(name, "BTN_TRIGGER_HAPPY2") {
        Some(BTN_TRIGGER_HAPPY2)
    } else if is_text(name, "BTN_TRIGGER_HAPPY3") {
        Some(BTN_TRIGGER_HAPPY3)
    } else if is_text(name, "BTN_TRIGGER_HAPPY4") {
        Some(BTN_TRIGGER_HAPPY4)
    } else if is_text(name, "BTN_TRIGGER_HAPPY5") {
        Some(BTN_TRIGGER_HAPPY5)
    } else if is_text(name, "BTN_TRIGGER_HAPPY6") {
        Some(BTN_TRIGGER_HAPPY6)
    } else if is_text(name, "BTN_TRIGGER_HAPPY7") {
        Some(BTN_TRIGGER_HAPPY7)
    } else if is_text(name, "BTN_TRIGGER_HAPPY8") {
        Some(BTN_TRIGGER_HAPPY8)
    } else if is_text(name, "BTN_TRIGGER_HAPPY9") {
        Some(BTN_TRIGGER_HAPPY9)
    } else if is_text(name, "BTN_TRIGGER_HAPPY10") {
        Some(BTN_TRIGGER_HAPPY10)
    } else if is_text(name, "KEY_VOLUMEUP") {
        Some(KEY_VOLUMEUP)
    } else if is_text(name, "KEY_VOLUMEDOWN") {
        Some(KEY_VOLUMEDOWN)
    } else if is_text(name, "KEY_PLAYPAUSE") {
        Some(KEY_PLAYPAUSE)
    } else if is_text(name, "KEY_POWER") {
        Some(KEY_POWER)
    } else {
        None
    };
    match number {
        Some(code) => Some(EventCode::key(code)),
        None => None,
    }
}

/// Turns a key name as written in a configuration into its event code.
/// An unknown name gives `None`.
pub fn parse_ev_key(name: &str) -> (r: Option<EventCode>)
    ensures
        r == key_named(name@),
{
    let chars = chars_of(name);
    key_of_chars(&chars)
}

} // verus!
