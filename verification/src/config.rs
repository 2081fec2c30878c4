//! The configuration text: `KEY = VALUE` lines that rebind roles.
//!
//! Each line is taken without the white space around it. Empty lines, lines
//! that begin with `#` and lines without `=` say nothing. Any other line is
//! split at its first `=` into a key and a value, both again without the
//! white space around them. Where a key occurs more than once the last line
//! counts. A role is rebound where its key is set to a known key name; where
//! the name is unknown, or the key is not set at all, the role keeps its
//! default.

use vstd::prelude::*;
use crate::codes::{key_named, key_of_chars, EventCode};
use crate::detector::{decided, select_code, shortcut_of, lemma_shortcut_fires, ModifierState, RawEvent};
use crate::keys::{KeyMapping, Role};
use crate::text::{chars_of, find, find_from, is_text, lines, position, slice, trim, trimmed};

verus! {

/// One setting of the configuration text, in characters.
#[derive(Debug, PartialEq, Eq)]
pub struct Entry {
    pub key: Vec<char>,
    pub value: Vec<char>,
}

/// What the configuration says of one role.
#[derive(Clone, Copy, Debug, PartialEq, Eq, Structural)]
pub enum Override {
    /// The role's key is not set.
    Absent,
    /// The role's key is set to the name of this code.
    Known(EventCode),
    /// The role's key is set to a name that stands for no key.
    Unknown,
}

impl Role {
    /// The key under which the configuration text sets this role.
    pub open spec fn conf_name(self) -> Seq<char> {
        match self {
            Role::Hotkey => "HOTKEY"@,
            Role::BrightUp => "BRIGHT_UP"@,
            Role::BrightDown => "BRIGHT_DOWN"@,
            Role::VolUp => "VOL_UP"@,
            Role::VolDown => "VOL_DOWN"@,
            Role::VolUpAlt => "VOL_UP2"@,
            Role::VolDownAlt => "VOL_DOWN2"@,
            Role::BrightDownAlt => "BRIGHT_DOWN2"@,
            Role::BrightUpAlt => "BRIGHT_UP2"@,
            Role::VolumeUp => "VOLUME_UP"@,
            Role::VolumeDown => "VOLUME_DOWN"@,
            Role::Mute => "MUTE"@,
        }
    }

    /// The key under which the configuration text sets this role.
    pub fn conf_key(self) -> (key: &'static str)
        ensures
            key@ == self.conf_name(),
    {
        match self {
            Role::Hotkey => "HOTKEY",
            Role::BrightUp => "BRIGHT_UP",
            Role::BrightDown => "BRIGHT_DOWN",
            Role::VolUp => "VOL_UP",
            Role::VolDown => "VOL_DOWN",
            Role::VolUpAlt => "VOL_UP2",
            Role::VolDownAlt => "VOL_DOWN2",
            Role::BrightDownAlt => "BRIGHT_DOWN2",
            Role::BrightUpAlt => "BRIGHT_UP2",
            Role::VolumeUp => "VOLUME_UP",
            Role::VolumeDown => "VOLUME_DOWN",
            Role::Mute => "MUTE",
        }
    }
}

/// The setting that one line makes, as key and value, if it makes one.
pub open spec fn entry_of(line: Seq<char>) -> Option<(Seq<char>, Seq<char>)> {
    let t = trimmed(line);
    let eq = position(t, '=');
    if t.len() == 0 || t[0] == '#' || eq >= t.len() {
        None
    } else {
        Some((trimmed(t.take(eq as int)), trimmed(t.skip(eq as int + 1))))
    }
}

/// The settings that the given lines make, in the order of the lines.
pub open spec fn entries_in(ls: Seq<Seq<char>>) -> Seq<(Seq<char>, Seq<char>)>
    decreases ls.len(),
{
    if ls.len() == 0 {
        Seq::empty()
    } else {
        match entry_of(ls.last()) {
            Some(entry) => entries_in(ls.drop_last()).push(entry),
            None => entries_in(ls.drop_last()),
        }
    }
}

/// The settings that a configuration text makes, in the order of its lines.
pub open spec fn entries(text: Seq<char>) -> Seq<(Seq<char>, Seq<char>)> {
    entries_in(lines(text))
}

/// The value that `key` is set to: that of the last setting of `key`.
pub open spec fn setting(es: Seq<(Seq<char>, Seq<char>)>, key: Seq<char>) -> Option<Seq<char>>
    decreases es.len(),
{
    if es.len() == 0 {
        None
    } else if es.last().0 == key {
        Some(es.last().1)
    } else {
        setting(es.drop_last(), key)
    }
}

/// What the settings say of `role`.
pub open spec fn override_in(es: Seq<(Seq<char>, Seq<char>)>, role: Role) -> Override {
    match setting(es, role.conf_name()) {
        None => Override::Absent,
        Some(name) => match key_named(name) {
            Some(code) => Override::Known(code),
            None => Override::Unknown,
        },
    }
}

/// The code a role ends up with: the configured one where it is known, else
/// `fallback`.
pub open spec fn resolved(o: Override, fallback: EventCode) -> EventCode {
    match o {
        Override::Known(code) => code,
        _ => fallback,
    }
}

/// `defaults` with every role rebound that the settings give a known key.
pub open spec fn overridden(defaults: KeyMapping, es: Seq<(Seq<char>, Seq<char>)>) -> KeyMapping {
    KeyMapping {
        hotkey: resolved(override_in(es, Role::Hotkey), defaults.hotkey),
        bright_up: resolved(override_in(es, Role::BrightUp), defaults.bright_up),
        bright_down: resolved(override_in(es, Role::BrightDown), defaults.bright_down),
        vol_up: resolved(override_in(es, Role::VolUp), defaults.vol_up),
        vol_down: resolved(override_in(es, Role::VolDown), defaults.vol_down),
        vol_up_alt: resolved(override_in(es, Role::VolUpAlt), defaults.vol_up_alt),
        vol_down_alt: resolved(override_in(es, Role::VolDownAlt), defaults.vol_down_alt),
        bright_down_alt: resolved(override_in(es, Role::BrightDownAlt), defaults.bright_down_alt),
        bright_up_alt: resolved(override_in(es, Role::BrightUpAlt), defaults.bright_up_alt),
        volume_up: resolved(override_in(es, Role::VolumeUp), defaults.volume_up),
        volume_down: resolved(override_in(es, Role::VolumeDown), defaults.volume_down),
        mute: resolved(override_in(es, Role::Mute), defaults.mute),
    }
}

/// The mapping that results from `defaults` and an optional configuration
/// text. Without a text it is `defaults`.
pub open spec fn loaded(defaults: KeyMapping, source: Option<Seq<char>>) -> KeyMapping {
    match source {
        None => defaults,
        Some(text) => overridden(defaults, entries(text)),
    }
}

/// The settings as plain values.
pub open spec fn settings_of(es: Seq<Entry>) -> Seq<(Seq<char>, Seq<char>)> {
    Seq::new(es.len(), |i: int| (es[i].key@, es[i].value@))
}

/// Reads one line.
pub fn entry_of_line(line: &Vec<char>) -> (r: Option<Entry>)
    ensures
        match r {
            Some(entry) => entry_of(line@) == Some((entry.key@, entry.value@)),
            None => entry_of(line@) is None,
        },
{
    let t = trim(line);
    if t.len() == 0 || t[0] == '#' {
        return None;
    }
    let eq = find(&t, '=');
    if eq >= t.len() {
        return None;
    }
    let left = slice(&t, 0, eq);
    let right = slice(&t, eq + 1, t.len());
    assert(left@ =~= t@.take(eq as int));
    assert(right@ =~= t@.skip(eq as int + 1));
    Some(Entry { key: trim(&left), value: trim(&right) })
}

/// Reads the settings of a configuration text, in the order of its lines.
pub fn parse_entries(text: &str) -> (r: Vec<Entry>)
    ensures
        settings_of(r@) == entries(text@),
{
    let chars = chars_of(text);
    let n: usize = chars.len();
    let mut out: Vec<Entry> = Vec::new();
    let mut start: usize = 0;
    let ghost mut done: Seq<Seq<char>> = Seq::empty();
    assert(chars@.skip(0) =~= chars@);
    assert(settings_of(out@) =~= entries_in(done));
    loop
        invariant_except_break
            start <= n,
            lines(chars@) == done + lines(chars@.skip(start as int)),
        invariant
            n == chars.len(),
            chars@ == text@,
            settings_of(out@) == entries_in(done),
        ensures
            lines(chars@) == done,
        decreases n - start,
    {
        let end = find_from(&chars, '\n', start);
        let line = slice(&chars, start, end);
        let ghost rest = chars@.skip(start as int);
        let ghost before = done;
        let ghost had = out@;
        assert(line@ =~= rest.take(end - start));
        match entry_of_line(&line) {
            Some(entry) => {
                out.push(entry);
                assert(settings_of(out@) =~= settings_of(had).push((entry.key@, entry.value@)));
            },
            None => {},
        }
        proof {
            done = before.push(line@);
            assert(done.drop_last() =~= before);
        }
        if end >= n {
            assert(rest.take(end - start) =~= rest);
            assert(before + seq![rest] =~= done);
            break;
        }
        assert(rest.skip(end - start + 1) =~= chars@.skip(end + 1));
        assert(before + (seq![line@] + lines(chars@.skip(end + 1))) =~= done + lines(
            chars@.skip(end + 1),
        ));
        start = end + 1;
    }
    out
}

/// The value that `key` is set to, if it is set.
pub fn lookup<'a>(entries: &'a Vec<Entry>, key: &str) -> (r: Option<&'a Vec<char>>)
    ensures
        match r {
            Some(value) => setting(settings_of(entries@), key@) == Some(value@),
            None => setting(settings_of(entries@), key@) is None,
        },
{
    let mut i: usize = entries.len();
    assert(settings_of(entries@).take(i as int) =~= settings_of(entries@));
    while i > 0
        invariant
            i <= entries.len(),
            setting(settings_of(entries@), key@) == setting(
                settings_of(entries@).take(i as int),
                key@,
            ),
        decreases i,
    {
        let ghost upto = settings_of(entries@).take(i as int);
        assert(upto.drop_last() =~= settings_of(entries@).take(i - 1));
        if is_text(&entries[i - 1].key, key) {
            return Some(&entries[i - 1].value);
        }
        i -= 1;
    }
    None
}

/// What the settings say of `role`.
pub fn override_for(entries: &Vec<Entry>, role: Role) -> (r: Override)
    ensures
        r == override_in(settings_of(entries@), role),
{
    match lookup(entries, role.conf_key()) {
        None => Override::Absent,
        Some(name) => match key_of_chars(name) {
            Some(code) => Override::Known(code),
            None => Override::Unknown,
        },
    }
}

/// The code for `role`: the configured one where it is known, else `fallback`.
fn resolve(entries: &Vec<Entry>, role: Role, fallback: EventCode) -> (code: EventCode)
    ensures
        code == resolved(override_in(settings_of(entries@), role), fallback),
{
    match override_for(entries, role) {
        Override::Known(code) => code,
        _ => fallback,
    }
}

/// Rebinds every role that the settings give a known key.
pub fn apply_overrides(defaults: &KeyMapping, entries: &Vec<Entry>) -> (keys: KeyMapping)
    ensures
        keys == overridden(*defaults, settings_of(entries@)),
{
    KeyMapping {
        hotkey: resolve(entries, Role::Hotkey, defaults.hotkey),
        bright_up: resolve(entries, Role::BrightUp, defaults.bright_up),
        bright_down: resolve(entries, Role::BrightDown, defaults.bright_down),
        vol_up: resolve(entries, Role::VolUp, defaults.vol_up),
        vol_down: resolve(entries, Role::VolDown, defaults.vol_down),
        vol_up_alt: resolve(entries, Role::VolUpAlt, defaults.vol_up_alt),
        vol_down_alt: resolve(entries, Role::VolDownAlt, defaults.vol_down_alt),
        bright_down_alt: resolve(entries, Role::BrightDownAlt, defaults.bright_down_alt),
        bright_up_alt: resolve(entries, Role::BrightUpAlt, defaults.bright_up_alt),
        volume_up: resolve(entries, Role::VolumeUp, defaults.volume_up),
        volume_down: resolve(entries, Role::VolumeDown, defaults.volume_down),
        mute: resolve(entries, Role::Mute, defaults.mute),
    }
}

/// Builds the key mapping from the defaults and, where there is one, the
/// configuration text.
pub fn load(defaults: KeyMapping, source: Option<&str>) -> (keys: KeyMapping)
    ensures
        keys == loaded(
            defaults,
            match source {
                Some(text) => Some(text@),
                None => None,
            },
        ),
{
    match source {
        None => defaults,
        Some(text) => {
            let entries = parse_entries(text);
            apply_overrides(&defaults, &entries)
        },
    }
}

/// A role whose key is not set, or set to an unknown name, keeps its default;
/// one set to a known name gets that key.
pub proof fn lemma_binding_after_load(defaults: KeyMapping, text: Seq<char>, role: Role)
    ensures
        loaded(defaults, Some(text)).binding(role) == match override_in(entries(text), role) {
            Override::Known(code) => code,
            Override::Unknown => defaults.binding(role),
            Override::Absent => defaults.binding(role),
        },
{
}

/// An empty text changes nothing, as no text at all.
pub proof fn lemma_empty_text_gives_defaults(defaults: KeyMapping)
    ensures
        loaded(defaults, Some(Seq::<char>::empty())) == defaults,
        loaded(defaults, None) == defaults,
{
    let none = Seq::<char>::empty();
    assert(lines(none) =~= seq![none]);
    assert(seq![none].drop_last() =~= Seq::<Seq<char>>::empty());
    assert(entry_of(none) is None);
    assert(entries_in(seq![none].drop_last()) =~= Seq::empty());
}

/// Where the text sets a shortcut role to a known key, a press of that key
/// while the hotkey is held triggers the role's action. Left out are the
/// modifiers' own keys, and a key that the resulting mapping also binds to a
/// shortcut with another action.
pub proof fn lemma_configured_shortcut_fires(
    defaults: KeyMapping,
    text: Seq<char>,
    role: Role,
    code: EventCode,
    state: ModifierState,
)
    requires
        override_in(entries(text), role) == Override::Known(code),
        state.hotkey_held,
        shortcut_of(role) is Some,
        code != loaded(defaults, Some(text)).hotkey,
        code != select_code(),
        forall|other: Role|
            shortcut_of(other) is Some && #[trigger] loaded(defaults, Some(text)).binding(other)
                == code ==> shortcut_of(other) == shortcut_of(role),
    ensures
        decided(state, RawEvent { code, value: 1 }, loaded(defaults, Some(text))) == shortcut_of(
            role,
        ),
{
    lemma_binding_after_load(defaults, text, role);
    lemma_shortcut_fires(state, loaded(defaults, Some(text)), role);
}

} // verus!
