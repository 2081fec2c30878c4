use ogage::codes::EventCode;
use ogage::config::{
    apply_overrides, entry_of_line, load, lookup, override_for, parse_entries, Entry, Override,
};
use ogage::detector::{Action, ModifierState, RawEvent};
use ogage::keys::{default_keys, KeyMapping, Role};

fn chars(s: &str) -> Vec<char> {
    s.chars().collect()
}

fn entry(key: &str, value: &str) -> Entry {
    Entry { key: chars(key), value: chars(value) }
}

fn press(code: EventCode) -> RawEvent {
    RawEvent { code, value: 1 }
}

/// The same reading written with the standard library's string functions.
fn entries_by_std(text: &str) -> Vec<Entry> {
    let mut out = Vec::new();
    for line in text.lines() {
        let line = line.trim();
        if line.is_empty() || line.starts_with('#') {
            continue;
        }
        if let Some((k, v)) = line.split_once('=') {
            out.push(entry(k.trim(), v.trim()));
        }
    }
    out
}

#[test]
fn entry_of_line_splits_at_the_first_equals_sign() {
    assert_eq!(entry_of_line(&chars("A=B")), Some(entry("A", "B")));
    assert_eq!(entry_of_line(&chars("  VOL_UP =  BTN_TL2\t")), Some(entry("VOL_UP", "BTN_TL2")));
    assert_eq!(entry_of_line(&chars("a = b = c")), Some(entry("a", "b = c")));
    assert_eq!(entry_of_line(&chars("a==")), Some(entry("a", "=")));
    assert_eq!(entry_of_line(&chars("a=")), Some(entry("a", "")));
    assert_eq!(entry_of_line(&chars("=b")), Some(entry("", "b")));
    assert_eq!(entry_of_line(&chars("=")), Some(entry("", "")));
    assert_eq!(entry_of_line(&chars("two words = three more words")), Some(entry("two words", "three more words")));
    assert_eq!(entry_of_line(&chars("k = v # not a comment")), Some(entry("k", "v # not a comment")));
}

#[test]
fn entry_of_line_skips_blank_comment_and_plain_lines() {
    assert_eq!(entry_of_line(&chars("")), None);
    assert_eq!(entry_of_line(&chars("   \t")), None);
    assert_eq!(entry_of_line(&chars("\r")), None);
    assert_eq!(entry_of_line(&chars("# VOL_UP = BTN_TL2")), None);
    assert_eq!(entry_of_line(&chars("   #VOL_UP=BTN_TL2")), None);
    assert_eq!(entry_of_line(&chars("#")), None);
    assert_eq!(entry_of_line(&chars("VOL_UP BTN_TL2")), None);
    assert_eq!(entry_of_line(&chars("VOL_UP: BTN_TL2")), None);
}

#[test]
fn parse_entries_keeps_the_order_of_the_lines() {
    let text = "# keys\n\nHOTKEY = BTN_MODE\r\n  VOL_UP=BTN_TL2  \nnonsense\nMUTE =\nHOTKEY = BTN_START";
    assert_eq!(
        parse_entries(text),
        vec![
            entry("HOTKEY", "BTN_MODE"),
            entry("VOL_UP", "BTN_TL2"),
            entry("MUTE", ""),
            entry("HOTKEY", "BTN_START"),
        ]
    );
}

#[test]
fn parse_entries_of_nothing_is_empty() {
    assert_eq!(parse_entries(""), Vec::<Entry>::new());
    assert_eq!(parse_entries("\n\n\n"), Vec::<Entry>::new());
    assert_eq!(parse_entries("# only a comment"), Vec::<Entry>::new());
    assert_eq!(parse_entries("   \r\n\t\r\n"), Vec::<Entry>::new());
}

#[test]
fn parse_entries_reads_the_last_line_with_or_without_line_feed() {
    assert_eq!(parse_entries("A=1"), vec![entry("A", "1")]);
    assert_eq!(parse_entries("A=1\n"), vec![entry("A", "1")]);
    assert_eq!(parse_entries("A=1\nB=2"), vec![entry("A", "1"), entry("B", "2")]);
    assert_eq!(parse_entries("\nA=1\n\nB=2\n\n"), vec![entry("A", "1"), entry("B", "2")]);
}

#[test]
fn parse_entries_agrees_with_std() {
    for text in [
        "",
        "\n",
        "A=B",
        "A=B\n",
        "A=B\r\n",
        "A=B\rC=D",
        "A=B\n\rC=D\r\n\r\n",
        " \u{a0}A\u{3000}=\u{2003}B \n#x=y\n\t# z\nno equals\n=\nq==\n",
        "HOTKEY = BTN_TRIGGER_HAPPY5\nBRIGHT_UP = BTN_DPAD_UP\nVOL_UP = BTN_TL2 = 7\n",
        "é = ✓\n\u{200b}k = v\u{200b}\n",
        "a=b\u{2028}c=d\n",
        "a=b\u{b}c=d\u{c}e=f\u{85}g=h",
    ] {
        assert_eq!(parse_entries(text), entries_by_std(text), "{:?}", text);
    }
}

#[test]
fn lookup_gives_the_last_setting_of_a_key() {
    let entries = parse_entries("A = 1\nB = 2\nA = 3\nC = 4\n");
    assert_eq!(lookup(&entries, "A"), Some(&chars("3")));
    assert_eq!(lookup(&entries, "B"), Some(&chars("2")));
    assert_eq!(lookup(&entries, "C"), Some(&chars("4")));
    assert_eq!(lookup(&entries, "D"), None);
    assert_eq!(lookup(&entries, "a"), None);
    assert_eq!(lookup(&entries, ""), None);
    assert_eq!(lookup(&Vec::new(), "A"), None);
}

#[test]
fn conf_key_names_each_role() {
    assert_eq!(Role::Hotkey.conf_key(), "HOTKEY");
    assert_eq!(Role::BrightUp.conf_key(), "BRIGHT_UP");
    assert_eq!(Role::BrightDown.conf_key(), "BRIGHT_DOWN");
    assert_eq!(Role::VolUp.conf_key(), "VOL_UP");
    assert_eq!(Role::VolDown.conf_key(), "VOL_DOWN");
    assert_eq!(Role::VolUpAlt.conf_key(), "VOL_UP2");
    assert_eq!(Role::VolDownAlt.conf_key(), "VOL_DOWN2");
    assert_eq!(Role::BrightDownAlt.conf_key(), "BRIGHT_DOWN2");
    assert_eq!(Role::BrightUpAlt.conf_key(), "BRIGHT_UP2");
    assert_eq!(Role::VolumeUp.conf_key(), "VOLUME_UP");
    assert_eq!(Role::VolumeDown.conf_key(), "VOLUME_DOWN");
    assert_eq!(Role::Mute.conf_key(), "MUTE");
}

#[test]
fn override_for_tells_known_unknown_and_absent() {
    let entries = parse_entries("VOL_UP = BTN_TL2\nVOL_DOWN = NOT_A_KEY\nvolume_up = BTN_TR2\nMUTE =\n");
    assert_eq!(override_for(&entries, Role::VolUp), Override::Known(EventCode::key(312)));
    assert_eq!(override_for(&entries, Role::VolDown), Override::Unknown);
    assert_eq!(override_for(&entries, Role::VolumeUp), Override::Absent);
    assert_eq!(override_for(&entries, Role::Mute), Override::Unknown);
    assert_eq!(override_for(&entries, Role::Hotkey), Override::Absent);
    assert_eq!(override_for(&entries, Role::VolUpAlt), Override::Absent);
}

#[test]
fn load_without_a_text_gives_the_defaults() {
    assert_eq!(load(default_keys(), None), default_keys());
    assert_eq!(load(default_keys(), Some("")), default_keys());
    assert_eq!(load(default_keys(), Some("# nothing here\n\n")), default_keys());
    assert_eq!(load(default_keys(), Some("this is not a configuration")), default_keys());
}

#[test]
fn load_starts_from_the_defaults_it_is_given() {
    let mut base = default_keys();
    base.mute = EventCode::key(304);
    base.hotkey = EventCode::key(316);
    assert_eq!(load(base, None), base);
    let loaded = load(base, Some("VOL_UP = BTN_TL2\nMUTE = NOT_A_KEY\n"));
    assert_eq!(loaded, KeyMapping { vol_up: EventCode::key(312), ..base });
}

#[test]
fn load_rebinds_every_role_by_its_key() {
    let text = "HOTKEY = BTN_MODE\n\
                BRIGHT_UP = BTN_NORTH\n\
                BRIGHT_DOWN = BTN_SOUTH\n\
                VOL_UP = BTN_EAST\n\
                VOL_DOWN = BTN_WEST\n\
                VOL_UP2 = BTN_TR2\n\
                VOL_DOWN2 = BTN_TL2\n\
                BRIGHT_DOWN2 = BTN_THUMBL\n\
                BRIGHT_UP2 = BTN_THUMBR\n\
                VOLUME_UP = BTN_TRIGGER_HAPPY9\n\
                VOLUME_DOWN = BTN_TRIGGER_HAPPY10\n\
                MUTE = KEY_POWER\n";
    assert_eq!(
        load(default_keys(), Some(text)),
        KeyMapping {
            hotkey: EventCode::key(316),
            bright_up: EventCode::key(307),
            bright_down: EventCode::key(304),
            vol_up: EventCode::key(305),
            vol_down: EventCode::key(308),
            vol_up_alt: EventCode::key(313),
            vol_down_alt: EventCode::key(312),
            bright_down_alt: EventCode::key(317),
            bright_up_alt: EventCode::key(318),
            volume_up: EventCode::key(712),
            volume_down: EventCode::key(713),
            mute: EventCode::key(116),
        }
    );
}

#[test]
fn load_ignores_unknown_keys() {
    let text = "VOL_UP3 = BTN_TL2\nvol_up = BTN_TL2\nVOL UP = BTN_TL2\nSELECT = BTN_SELECT\n = BTN_TL2\n";
    assert_eq!(load(default_keys(), Some(text)), default_keys());
}

#[test]
fn load_lets_the_last_setting_of_a_key_count() {
    let first_known = load(default_keys(), Some("VOL_UP = BTN_TL2\nVOL_UP = NOT_A_KEY\n"));
    assert_eq!(first_known.vol_up, EventCode::key(547));
    let last_known = load(default_keys(), Some("VOL_UP = NOT_A_KEY\nVOL_UP = BTN_TL2\n"));
    assert_eq!(last_known.vol_up, EventCode::key(312));
    let twice = load(default_keys(), Some("VOL_UP = BTN_TL2\nVOL_UP = BTN_TR2\n"));
    assert_eq!(twice.vol_up, EventCode::key(313));
}

#[test]
fn load_accepts_names_exactly_as_written_only() {
    let keys = load(
        default_keys(),
        Some("VOL_UP = btn_tl2\nVOL_DOWN = BTN_TL2 # left\nMUTE = BTN_TL 2\nHOTKEY = \"BTN_MODE\"\n"),
    );
    assert_eq!(keys, default_keys());
}

#[test]
fn apply_overrides_is_load_on_read_entries() {
    let text = "MUTE = BTN_MODE\nVOLUME_DOWN = BTN_START\nBRIGHT_UP = ?\n";
    let entries = parse_entries(text);
    assert_eq!(apply_overrides(&default_keys(), &entries), load(default_keys(), Some(text)));
    assert_eq!(apply_overrides(&default_keys(), &Vec::new()), default_keys());
}

#[test]
fn config_override_changes_the_key_of_volume_up() {
    let keys = load(default_keys(), Some("VOL_UP = BTN_TL2"));
    assert_eq!(keys.vol_up, EventCode::key(312));
    assert_eq!(KeyMapping { vol_up: default_keys().vol_up, ..keys }, default_keys());

    let mut state = ModifierState::new();
    assert_eq!(state.classify(&press(keys.hotkey), &keys), None);
    assert_eq!(state.classify(&press(EventCode::key(312)), &keys), Some(Action::VolumeUp));
    assert_eq!(state.classify(&press(EventCode::key(547)), &keys), None);

    let defaults = default_keys();
    let mut state = ModifierState::new();
    assert_eq!(state.classify(&press(defaults.hotkey), &defaults), None);
    assert_eq!(state.classify(&press(EventCode::key(312)), &defaults), None);
    assert_eq!(state.classify(&press(EventCode::key(547)), &defaults), Some(Action::VolumeUp));
}

#[test]
fn config_override_with_unknown_name_keeps_the_default() {
    let keys = load(default_keys(), Some("VOL_UP = NOT_A_KEY"));
    assert_eq!(keys, default_keys());
    let mut state = ModifierState::new();
    assert_eq!(state.classify(&press(keys.hotkey), &keys), None);
    assert_eq!(state.classify(&press(EventCode::key(547)), &keys), Some(Action::VolumeUp));
}

/// A small deterministic generator, enough to vary the inputs.
fn next(seed: &mut u64) -> u64 {
    *seed = seed.wrapping_mul(6364136223846793005).wrapping_add(1442695040888963407);
    *seed >> 33
}

#[test]
fn parse_entries_agrees_with_std_on_generated_texts() {
    let alphabet = [
        ' ', '\t', '\n', '\n', '\r', '=', '=', '#', 'A', 'B', '_', '2', '\u{a0}', '\u{3000}',
        '\u{85}', '\u{200b}', 'é',
    ];
    let mut seed = 3;
    for round in 0..3000 {
        let len = next(&mut seed) as usize % 24;
        let text: String =
            (0..len).map(|_| alphabet[next(&mut seed) as usize % alphabet.len()]).collect();
        assert_eq!(parse_entries(&text), entries_by_std(&text), "round {}: {:?}", round, text);
    }
}

#[test]
fn load_agrees_with_a_map_of_the_settings() {
    let keys_pool = ["HOTKEY", "VOL_UP", "VOL_UP2", "MUTE", "BRIGHT_DOWN2", "VOLUME_DOWN", "OTHER"];
    let names_pool = ["BTN_TL2", "BTN_MODE", "KEY_POWER", "NOT_A_KEY", "", "BTN_TRIGGER_HAPPY10"];
    let mut seed = 5;
    for _ in 0..500 {
        let lines = next(&mut seed) as usize % 8;
        let mut text = String::new();
        let mut map = std::collections::HashMap::new();
        for _ in 0..lines {
            let k = keys_pool[next(&mut seed) as usize % keys_pool.len()];
            let v = names_pool[next(&mut seed) as usize % names_pool.len()];
            text.push_str(&format!(" {} = {}\n", k, v));
            map.insert(k, v);
        }
        let mut expected = default_keys();
        for role in [
            Role::Hotkey,
            Role::VolUp,
            Role::VolUpAlt,
            Role::Mute,
            Role::BrightDownAlt,
            Role::VolumeDown,
        ] {
            if let Some(name) = map.get(role.conf_key()) {
                if let Some(code) = ogage::codes::parse_ev_key(name) {
                    expected.bind(role, code);
                }
            }
        }
        assert_eq!(load(default_keys(), Some(&text)), expected, "{:?}", text);
    }
}
