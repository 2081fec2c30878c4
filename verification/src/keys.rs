//! The key mapping: which event code each role is bound to.

use vstd::prelude::*;
use crate::codes::{
    EventCode, BTN_DPAD_DOWN, BTN_DPAD_LEFT, BTN_DPAD_RIGHT, BTN_DPAD_UP, BTN_TL, BTN_TR,
    BTN_TRIGGER_HAPPY3, BTN_TRIGGER_HAPPY4, BTN_TRIGGER_HAPPY5, KEY_PLAYPAUSE, KEY_VOLUMEDOWN,
    KEY_VOLUMEUP,
};

verus! {

/// The roles a key can play.
#[derive(Clone, Copy, Debug, PartialEq, Eq, Hash, Structural)]
pub enum Role {
    /// The modifier that turns the next eight roles into shortcuts while held.
    Hotkey,
    BrightUp,
    BrightDown,
    VolUp,
    VolDown,
    /// Second binding of `VolUp`.
    VolUpAlt,
    /// Second binding of `VolDown`.
    VolDownAlt,
    /// Second binding of `BrightDown`.
    BrightDownAlt,
    /// Second binding of `BrightUp`.
    BrightUpAlt,
    /// Dedicated volume key, needs no modifier.
    VolumeUp,
    /// Dedicated volume key, needs no modifier.
    VolumeDown,
    /// Dedicated mute key, needs no modifier.
    Mute,
}

/// One event code for every role. Several roles may share a code.
#[derive(Clone, Copy, Debug, PartialEq, Eq, Structural)]
pub struct KeyMapping {
    pub hotkey: EventCode,
    pub bright_up: EventCode,
    pub bright_down: EventCode,
    pub vol_up: EventCode,
    pub vol_down: EventCode,
    pub vol_up_alt: EventCode,
    pub vol_down_alt: EventCode,
    pub bright_down_alt: EventCode,
    pub bright_up_alt: EventCode,
    pub volume_up: EventCode,
    pub volume_down: EventCode,
    pub mute: EventCode,
}

impl KeyMapping {
    /// The code that `role` is bound to.
    pub open spec fn binding(self, role: Role) -> EventCode {
        match role {
            Role::Hotkey => self.hotkey,
            Role::BrightUp => self.bright_up,
            Role::BrightDown => self.bright_down,
            Role::VolUp => self.vol_up,
            Role::VolDown => self.vol_down,
            Role::VolUpAlt => self.vol_up_alt,
            Role::VolDownAlt => self.vol_down_alt,
            Role::BrightDownAlt => self.bright_down_alt,
            Role::BrightUpAlt => self.bright_up_alt,
            Role::VolumeUp => self.volume_up,
            Role::VolumeDown => self.volume_down,
            Role::Mute => self.mute,
        }
    }

    /// This mapping with `role` bound to `code` and every other role as it was.
    pub open spec fn rebound(self, role: Role, code: EventCode) -> KeyMapping {
        match role {
            Role::Hotkey => KeyMapping { hotkey: code, ..self },
            Role::BrightUp => KeyMapping { bright_up: code, ..self },
            Role::BrightDown => KeyMapping { bright_down: code, ..self },
            Role::VolUp => KeyMapping { vol_up: code, ..self },
            Role::VolDown => KeyMapping { vol_down: code, ..self },
            Role::VolUpAlt => KeyMapping { vol_up_alt: code, ..self },
            Role::VolDownAlt => KeyMapping { vol_down_alt: code, ..self },
            Role::BrightDownAlt => KeyMapping { bright_down_alt: code, ..self },
            Role::BrightUpAlt => KeyMapping { bright_up_alt: code, ..self },
            Role::VolumeUp => KeyMapping { volume_up: code, ..self },
            Role::VolumeDown => KeyMapping { volume_down: code, ..self },
            Role::Mute => KeyMapping { mute: code, ..self },
        }
    }

    /// Whether `code` is bound to one of the eight roles that only act while
    /// the hotkey is held.
    pub open spec fn is_shortcut(self, code: EventCode) -> bool {
        ||| code == self.bright_up
        ||| code == self.bright_up_alt
        ||| code == self.bright_down
        ||| code == self.bright_down_alt
        ||| code == self.vol_up
        ||| code == self.vol_up_alt
        ||| code == self.vol_down
        ||| code == self.vol_down_alt
    }

    /// Reads the binding of `role`.
    pub fn get(&self, role: Role) -> (code: EventCode)
        ensures
            code == self.binding(role),
    {
        match role {
            Role::Hotkey => self.hotkey,
            Role::BrightUp => self.bright_up,
            Role::BrightDown => self.bright_down,
            Role::VolUp => self.vol_up,
            Role::VolDown => self.vol_down,
            Role::VolUpAlt => self.vol_up_alt,
            Role::VolDownAlt => self.vol_down_alt,
            Role::BrightDownAlt => self.bright_down_alt,
            Role::BrightUpAlt => self.bright_up_alt,
            Role::VolumeUp => self.volume_up,
            Role::VolumeDown => self.volume_down,
            Role::Mute => self.mute,
        }
    }

    /// Binds `role` to `code`, leaving the other roles alone.
    pub fn bind(&mut self, role: Role, code: EventCode)
        ensures
            *final(self) == old(self).rebound(role, code),
    {
        match role {
            Role::Hotkey => { self.hotkey = code; },
            Role::BrightUp => { self.bright_up = code; },
            Role::BrightDown => { self.bright_down = code; },
            Role::VolUp => { self.vol_up = code; },
            Role::VolDown => { self.vol_down = code; },
            Role::VolUpAlt => { self.vol_up_alt = code; },
            Role::VolDownAlt => { self.vol_down_alt = code; },
            Role::BrightDownAlt => { self.bright_down_alt = code; },
            Role::BrightUpAlt => { self.bright_up_alt = code; },
            Role::VolumeUp => { self.volume_up = code; },
            Role::VolumeDown => { self.volume_down = code; },
            Role::Mute => { self.mute = code; },
        }
    }
}

/// The bindings used where nothing else is configured.
pub open spec fn default_mapping() -> KeyMapping {
    KeyMapping {
        hotkey: EventCode::key(BTN_TRIGGER_HAPPY5),
        bright_up: EventCode::key(BTN_DPAD_UP),
        bright_down: EventCode::key(BTN_DPAD_DOWN),
        vol_up: EventCode::key(BTN_DPAD_RIGHT),
        vol_down: EventCode::key(BTN_DPAD_LEFT),
        vol_up_alt: EventCode::key(BTN_TR),
        vol_down_alt: EventCode::key(BTN_TL),
        bright_down_alt: EventCode::key(BTN_TRIGGER_HAPPY3),
        bright_up_alt: EventCode::key(BTN_TRIGGER_HAPPY4),
        volume_up: EventCode::key(KEY_VOLUMEUP),
        volume_down: EventCode::key(KEY_VOLUMEDOWN),
        mute: EventCode::key(KEY_PLAYPAUSE),
    }
}

/// The built-in mapping.
pub fn default_keys() -> (keys: KeyMapping)
    ensures
        keys == default_mapping(),
{
    KeyMapping {
        hotkey: EventCode::key(BTN_TRIGGER_HAPPY5),
        bright_up: EventCode::key(BTN_DPAD_UP),
        bright_down: EventCode::key(BTN_DPAD_DOWN),
        vol_up: EventCode::key(BTN_DPAD_RIGHT),
        vol_down: EventCode::key(BTN_DPAD_LEFT),
        vol_up_alt: EventCode::key(BTN_TR),
        vol_down_alt: EventCode::key(BTN_TL),
        bright_down_alt: EventCode::key(BTN_TRIGGER_HAPPY3),
        bright_up_alt: EventCode::key(BTN_TRIGGER_HAPPY4),
        volume_up: EventCode::key(KEY_VOLUMEUP),
        volume_down: EventCode::key(KEY_VOLUMEDOWN),
        mute: EventCode::key(KEY_PLAYPAUSE),
    }
}

} // verus!
