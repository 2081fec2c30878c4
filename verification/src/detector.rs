//! The combo detector: from raw key events to logical actions.
//!
//! Two modifiers are latched, the configurable hotkey and the fixed select
//! key. Every other event is looked up against the key mapping and gives at
//! most one action.

use vstd::prelude::*;
use crate::codes::{
    EventCode, BTN_TRIGGER_HAPPY1, BTN_TRIGGER_HAPPY4, KEY_POWER, SW_HEADPHONE_INSERT,
};
use crate::keys::{KeyMapping, Role};

verus! {

/// One report from the kernel: which input, and its new value. For keys 0 is
/// a release, 1 a press and 2 an autorepeat; for switches 0 is off and 1 on.
#[derive(Clone, Copy, Debug, PartialEq, Eq, Structural)]
pub struct RawEvent {
    pub code: EventCode,
    pub value: i32,
}

/// Where sound is routed.
#[derive(Clone, Copy, Debug, PartialEq, Eq, Structural)]
pub enum AudioPath {
    Speaker,
    Headphone,
}

/// What the device is asked to do.
#[derive(Clone, Copy, Debug, PartialEq, Eq, Structural)]
pub enum Action {
    BrightnessUp,
    BrightnessDown,
    VolumeUp,
    VolumeDown,
    PowerOff,
    AudioPathSwitch(AudioPath),
    Suspend,
    ToggleMute,
    SpeakBatteryLevel,
}

/// Which modifiers are held down.
#[derive(Clone, Copy, Debug, PartialEq, Eq, Structural)]
pub struct ModifierState {
    pub hotkey_held: bool,
    pub select_held: bool,
}

pub open spec fn spec_select_code() -> EventCode {
    EventCode::key(BTN_TRIGGER_HAPPY1)
}

/// The select key, the modifier of the battery readout.
#[verifier::when_used_as_spec(spec_select_code)]
pub fn select_code() -> (r: EventCode)
    ensures
        r == spec_select_code(),
{
    EventCode::key(BTN_TRIGGER_HAPPY1)
}

pub open spec fn spec_power_code() -> EventCode {
    EventCode::key(KEY_POWER)
}

/// The power button.
#[verifier::when_used_as_spec(spec_power_code)]
pub fn power_code() -> (r: EventCode)
    ensures
        r == spec_power_code(),
{
    EventCode::key(KEY_POWER)
}

pub open spec fn spec_headphone_code() -> EventCode {
    EventCode::switch(SW_HEADPHONE_INSERT)
}

/// The headphone jack's switch.
#[verifier::when_used_as_spec(spec_headphone_code)]
pub fn headphone_code() -> (r: EventCode)
    ensures
        r == spec_headphone_code(),
{
    EventCode::switch(SW_HEADPHONE_INSERT)
}

pub open spec fn spec_battery_code() -> EventCode {
    EventCode::key(BTN_TRIGGER_HAPPY4)
}

/// The button that, with select held, reads the battery level out.
#[verifier::when_used_as_spec(spec_battery_code)]
pub fn battery_code() -> (r: EventCode)
    ensures
        r == spec_battery_code(),
{
    EventCode::key(BTN_TRIGGER_HAPPY4)
}

/// The action of an event while the hotkey is held. A press of a brightness
/// or volume shortcut gives that adjustment; failing that, the power button,
/// pressed or repeating, powers off.
pub open spec fn shortcut_action(ev: RawEvent, keys: KeyMapping) -> Option<Action> {
    if ev.value == 1 && (ev.code == keys.bright_up || ev.code == keys.bright_up_alt) {
        Some(Action::BrightnessUp)
    } else if ev.value == 1 && (ev.code == keys.bright_down || ev.code == keys.bright_down_alt) {
        Some(Action::BrightnessDown)
    } else if ev.value == 1 && (ev.code == keys.vol_up || ev.code == keys.vol_up_alt) {
        Some(Action::VolumeUp)
    } else if ev.value == 1 && (ev.code == keys.vol_down || ev.code == keys.vol_down_alt) {
        Some(Action::VolumeDown)
    } else if ev.code == power_code() && ev.value > 0 {
        Some(Action::PowerOff)
    } else {
        None
    }
}

/// The action of an event that needs no modifier: the headphone switch routes
/// the sound, a press of the power button suspends, and the dedicated volume
/// and mute keys act when pressed or repeating.
pub open spec fn plain_action(ev: RawEvent, keys: KeyMapping) -> Option<Action> {
    if ev.code == headphone_code() {
        Some(
            Action::AudioPathSwitch(
                if ev.value == 1 {
                    AudioPath::Speaker
                } else {
                    AudioPath::Headphone
                },
            ),
        )
    } else if ev.code == power_code() && ev.value == 1 {
        Some(Action::Suspend)
    } else if ev.code == keys.volume_up && ev.value > 0 {
        Some(Action::VolumeUp)
    } else if ev.code == keys.volume_down && ev.value > 0 {
        Some(Action::VolumeDown)
    } else if ev.code == keys.mute && ev.value > 0 {
        Some(Action::ToggleMute)
    } else {
        None
    }
}

/// The action of a key event given whether the hotkey is held: a shortcut
/// where one applies, else what the event means without a modifier.
pub open spec fn key_action(ev: RawEvent, hotkey: bool, keys: KeyMapping) -> Option<Action> {
    if hotkey && shortcut_action(ev, keys) is Some {
        shortcut_action(ev, keys)
    } else {
        plain_action(ev, keys)
    }
}

/// The action of an event given whether select is held: a press of the
/// battery button reads the level out.
pub open spec fn select_action(ev: RawEvent, select: bool) -> Option<Action> {
    if select && ev.code == battery_code() && ev.value == 1 {
        Some(Action::SpeakBatteryLevel)
    } else {
        None
    }
}

/// The modifiers after `ev` has been seen. An event of the hotkey sets
/// `hotkey_held` to whether it is a press; an event of the select key sets
/// `select_held` to whether it is a press or a repeat; nothing else changes
/// either.
pub open spec fn observed(state: ModifierState, ev: RawEvent, keys: KeyMapping) -> ModifierState {
    ModifierState {
        hotkey_held: if ev.code == keys.hotkey {
            ev.value == 1
        } else {
            state.hotkey_held
        },
        select_held: if ev.code == select_code() {
            ev.value == 1 || ev.value == 2
        } else {
            state.select_held
        },
    }
}

/// The action that `ev` triggers under the modifiers `state`. Events of the
/// modifiers themselves trigger nothing. Otherwise the hotkey's shortcuts
/// come first, then the actions that need no modifier, then the battery
/// readout.
pub open spec fn decided(state: ModifierState, ev: RawEvent, keys: KeyMapping) -> Option<Action> {
    if ev.code == keys.hotkey || ev.code == select_code() {
        None
    } else if key_action(ev, state.hotkey_held, keys) is Some {
        key_action(ev, state.hotkey_held, keys)
    } else {
        select_action(ev, state.select_held)
    }
}

/// The modifiers after a whole run of events, seen in order.
pub open spec fn observed_all(
    state: ModifierState,
    evs: Seq<RawEvent>,
    keys: KeyMapping,
) -> ModifierState
    decreases evs.len(),
{
    if evs.len() == 0 {
        state
    } else {
        observed(observed_all(state, evs.drop_last(), keys), evs.last(), keys)
    }
}

/// What a key event does, given whether the hotkey is held.
pub fn process_event(ev: &RawEvent, hotkey: bool, keys: &KeyMapping) -> (action: Option<Action>)
    ensures
        action == key_action(*ev, hotkey, *keys),
{
    if hotkey {
        if ev.value == 1 {
            if ev.code == keys.bright_up || ev.code == keys.bright_up_alt {
                return Some(Action::BrightnessUp);
            } else if ev.code == keys.bright_down || ev.code == keys.bright_down_alt {
                return Some(Action::BrightnessDown);
            } else if ev.code == keys.vol_up || ev.code == keys.vol_up_alt {
                return Some(Action::VolumeUp);
            } else if ev.code == keys.vol_down || ev.code == keys.vol_down_alt {
                return Some(Action::VolumeDown);
            }
        }
        if ev.code == power_code() && ev.value > 0 {
            return Some(Action::PowerOff);
        }
    }
    if ev.code == headphone_code() {
        if ev.value == 1 {
            Some(Action::AudioPathSwitch(AudioPath::Speaker))
        } else {
            Some(Action::AudioPathSwitch(AudioPath::Headphone))
        }
    } else if ev.code == power_code() && ev.value == 1 {
        Some(Action::Suspend)
    } else if ev.code == keys.volume_up && ev.value > 0 {
        Some(Action::VolumeUp)
    } else if ev.code == keys.volume_down && ev.value > 0 {
        Some(Action::VolumeDown)
    } else if ev.code == keys.mute && ev.value > 0 {
        Some(Action::ToggleMute)
    } else {
        None
    }
}

/// What an event does, given whether select is held.
pub fn process_event2(ev: &RawEvent, selectkey: bool) -> (action: Option<Action>)
    ensures
        action == select_action(*ev, selectkey),
{
    if selectkey && ev.code == battery_code() && ev.value == 1 {
        Some(Action::SpeakBatteryLevel)
    } else {
        None
    }
}

impl ModifierState {
    pub open spec fn spec_new() -> ModifierState {
        ModifierState { hotkey_held: false, select_held: false }
    }

    /// No modifier held.
    #[verifier::when_used_as_spec(spec_new)]
    pub fn new() -> (state: ModifierState)
        ensures
            state == Self::spec_new(),
    {
        ModifierState { hotkey_held: false, select_held: false }
    }

    /// Takes one event in: latches the modifiers, then says which action, if
    /// any, the event triggers.
    pub fn classify(&mut self, ev: &RawEvent, keys: &KeyMapping) -> (action: Option<Action>)
        ensures
            *final(self) == observed(*old(self), *ev, *keys),
            action == decided(*final(self), *ev, *keys),
    {
        let is_hotkey = ev.code == keys.hotkey;
        let is_select = ev.code == select_code();
        if is_hotkey {
            self.hotkey_held = ev.value == 1;
        }
        if is_select {
            self.select_held = ev.value == 1 || ev.value == 2;
        }
        if is_hotkey || is_select {
            return None;
        }
        match process_event(ev, self.hotkey_held, keys) {
            Some(action) => Some(action),
            None => process_event2(ev, self.select_held),
        }
    }
}

/// Whether the event at `i` is the last one in `evs` that `code` reported.
pub open spec fn is_last_report(evs: Seq<RawEvent>, code: EventCode, i: int) -> bool {
    &&& 0 <= i < evs.len()
    &&& evs[i].code == code
    &&& forall|j: int| i < j < evs.len() ==> (#[trigger] evs[j]).code != code
}

/// Whether no event in `evs` is of `code`.
pub open spec fn never_reports(evs: Seq<RawEvent>, code: EventCode) -> bool {
    forall|i: int| 0 <= i < evs.len() ==> (#[trigger] evs[i]).code != code
}

proof fn lemma_last_report_moves_down(evs: Seq<RawEvent>, code: EventCode, i: int)
    requires
        is_last_report(evs, code, i),
        i < evs.len() - 1,
    ensures
        evs.last().code != code,
        is_last_report(evs.drop_last(), code, i),
{
    let front = evs.drop_last();
    assert(evs[evs.len() - 1].code != code);
    assert forall|j: int| i < j < front.len() implies (#[trigger] front[j]).code != code by {
        assert(front[j] == evs[j]);
    }
}

proof fn lemma_never_reports_front(evs: Seq<RawEvent>, code: EventCode)
    requires
        never_reports(evs, code),
        evs.len() > 0,
    ensures
        evs.last().code != code,
        never_reports(evs.drop_last(), code),
{
    let front = evs.drop_last();
    assert(evs[evs.len() - 1].code != code);
    assert forall|j: int| 0 <= j < front.len() implies (#[trigger] front[j]).code != code by {
        assert(front[j] == evs[j]);
    }
}

/// After any run of events the hotkey is held exactly if the last event of
/// its key was a press.
pub proof fn lemma_hotkey_shows_last_report(
    state: ModifierState,
    evs: Seq<RawEvent>,
    keys: KeyMapping,
    i: int,
)
    requires
        is_last_report(evs, keys.hotkey, i),
    ensures
        observed_all(state, evs, keys).hotkey_held == (evs[i].value == 1),
    decreases evs.len(),
{
    if i < evs.len() - 1 {
        lemma_last_report_moves_down(evs, keys.hotkey, i);
        lemma_hotkey_shows_last_report(state, evs.drop_last(), keys, i);
    }
}

/// A run of events without the hotkey's code leaves the hotkey as it was.
pub proof fn lemma_hotkey_kept_without_report(
    state: ModifierState,
    evs: Seq<RawEvent>,
    keys: KeyMapping,
)
    requires
        never_reports(evs, keys.hotkey),
    ensures
        observed_all(state, evs, keys).hotkey_held == state.hotkey_held,
    decreases evs.len(),
{
    if evs.len() > 0 {
        lemma_never_reports_front(evs, keys.hotkey);
        lemma_hotkey_kept_without_report(state, evs.drop_last(), keys);
    }
}

/// After any run of events select is held exactly if the last event of its
/// key was a press or a repeat.
pub proof fn lemma_select_shows_last_report(
    state: ModifierState,
    evs: Seq<RawEvent>,
    keys: KeyMapping,
    i: int,
)
    requires
        is_last_report(evs, select_code(), i),
    ensures
        observed_all(state, evs, keys).select_held == (evs[i].value == 1 || evs[i].value == 2),
    decreases evs.len(),
{
    if i < evs.len() - 1 {
        lemma_last_report_moves_down(evs, select_code(), i);
        lemma_select_shows_last_report(state, evs.drop_last(), keys, i);
    }
}

/// A run of events without the select key's code leaves select as it was.
pub proof fn lemma_select_kept_without_report(
    state: ModifierState,
    evs: Seq<RawEvent>,
    keys: KeyMapping,
)
    requires
        never_reports(evs, select_code()),
    ensures
        observed_all(state, evs, keys).select_held == state.select_held,
    decreases evs.len(),
{
    if evs.len() > 0 {
        lemma_never_reports_front(evs, select_code());
        lemma_select_kept_without_report(state, evs.drop_last(), keys);
    }
}

/// One event moves each modifier only if it is of that modifier's key, and
/// then to what the event reports.
pub proof fn lemma_modifier_changes_only_on_its_key(
    state: ModifierState,
    ev: RawEvent,
    keys: KeyMapping,
)
    ensures
        ev.code != keys.hotkey ==> observed(state, ev, keys).hotkey_held == state.hotkey_held,
        ev.code == keys.hotkey ==> observed(state, ev, keys).hotkey_held == (ev.value == 1),
        ev.code != select_code() ==> observed(state, ev, keys).select_held == state.select_held,
        ev.code == select_code() ==> observed(state, ev, keys).select_held == (ev.value == 1
            || ev.value == 2),
{
}

/// While the hotkey is held, the power button powers off whether pressed or
/// repeating, unless the press is taken by a shortcut bound to the same code.
/// With the hotkey up, a press of it suspends.
pub proof fn lemma_power_button(state: ModifierState, value: i32, keys: KeyMapping)
    requires
        keys.hotkey != power_code(),
    ensures
        state.hotkey_held && value > 0 && !(value == 1 && keys.is_shortcut(power_code()))
            ==> decided(state, RawEvent { code: power_code(), value }, keys) == Some(
            Action::PowerOff,
        ),
        !state.hotkey_held && value == 1 ==> decided(
            state,
            RawEvent { code: power_code(), value },
            keys,
        ) == Some(Action::Suspend),
{
}

/// The headphone switch routes the sound whatever the modifiers are: to the
/// speaker at value 1, to the headphones at any other value. The two cases
/// left out are a mapping that makes the switch its hotkey, and a held hotkey
/// with a shortcut bound to the switch, which then takes the value 1.
pub proof fn lemma_headphone_switch(state: ModifierState, value: i32, keys: KeyMapping)
    requires
        keys.hotkey != headphone_code(),
        !(state.hotkey_held && value == 1 && keys.is_shortcut(headphone_code())),
    ensures
        decided(state, RawEvent { code: headphone_code(), value }, keys) == Some(
            Action::AudioPathSwitch(
                if value == 1 {
                    AudioPath::Speaker
                } else {
                    AudioPath::Headphone
                },
            ),
        ),
{
}

/// The action of each role that acts only while the hotkey is held.
pub open spec fn shortcut_of(role: Role) -> Option<Action> {
    match role {
        Role::BrightUp => Some(Action::BrightnessUp),
        Role::BrightUpAlt => Some(Action::BrightnessUp),
        Role::BrightDown => Some(Action::BrightnessDown),
        Role::BrightDownAlt => Some(Action::BrightnessDown),
        Role::VolUp => Some(Action::VolumeUp),
        Role::VolUpAlt => Some(Action::VolumeUp),
        Role::VolDown => Some(Action::VolumeDown),
        Role::VolDownAlt => Some(Action::VolumeDown),
        _ => None,
    }
}

/// While the hotkey is held, a press of the key bound to a shortcut role
/// triggers that role's action, whichever of its two bindings is used. Left
/// out are the modifiers' own keys, and a key that is also bound to a
/// shortcut with another action.
pub proof fn lemma_shortcut_fires(state: ModifierState, keys: KeyMapping, role: Role)
    requires
        state.hotkey_held,
        shortcut_of(role) is Some,
        keys.binding(role) != keys.hotkey,
        keys.binding(role) != select_code(),
        forall|other: Role|
            shortcut_of(other) is Some && #[trigger] keys.binding(other) == keys.binding(role)
                ==> shortcut_of(other) == shortcut_of(role),
    ensures
        decided(state, RawEvent { code: keys.binding(role), value: 1 }, keys) == shortcut_of(role),
{
    // Naming each shortcut's binding lets the hypothesis speak of it.
    assert(keys.binding(Role::BrightUp) == keys.bright_up);
    assert(keys.binding(Role::BrightUpAlt) == keys.bright_up_alt);
    assert(keys.binding(Role::BrightDown) == keys.bright_down);
    assert(keys.binding(Role::BrightDownAlt) == keys.bright_down_alt);
    assert(keys.binding(Role::VolUp) == keys.vol_up);
    assert(keys.binding(Role::VolUpAlt) == keys.vol_up_alt);
    assert(keys.binding(Role::VolDown) == keys.vol_down);
    assert(keys.binding(Role::VolDownAlt) == keys.vol_down_alt);
}

/// With the hotkey up, or on a release or a repeat, no shortcut role
/// triggers its action through the hotkey.
pub proof fn lemma_shortcut_needs_held_hotkey_and_press(
    state: ModifierState,
    ev: RawEvent,
    keys: KeyMapping,
)
    requires
        !state.hotkey_held || ev.value != 1,
        ev.code != power_code(),
    ensures
        decided(state, ev, keys) == if ev.code == keys.hotkey || ev.code == select_code() {
            None
        } else if plain_action(ev, keys) is Some {
            plain_action(ev, keys)
        } else {
            select_action(ev, state.select_held)
        },
{
}

} // verus!
