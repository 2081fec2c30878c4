use ogage::codes::EventCode;
use ogage::keys::{default_keys, KeyMapping, Role};

const ROLES: [Role; 12] = [
    Role::Hotkey,
    Role::BrightUp,
    Role::BrightDown,
    Role::VolUp,
    Role::VolDown,
    Role::VolUpAlt,
    Role::VolDownAlt,
    Role::BrightDownAlt,
    Role::BrightUpAlt,
    Role::VolumeUp,
    Role::VolumeDown,
    Role::Mute,
];

#[test]
fn default_keys_binds_every_role() {
    let keys = default_keys();
    assert_eq!(
        keys,
        KeyMapping {
            hotkey: EventCode { kind: 1, code: 708 },
            bright_up: EventCode { kind: 1, code: 544 },
            bright_down: EventCode { kind: 1, code: 545 },
            vol_up: EventCode { kind: 1, code: 547 },
            vol_down: EventCode { kind: 1, code: 546 },
            vol_up_alt: EventCode { kind: 1, code: 311 },
            vol_down_alt: EventCode { kind: 1, code: 310 },
            bright_down_alt: EventCode { kind: 1, code: 706 },
            bright_up_alt: EventCode { kind: 1, code: 707 },
            volume_up: EventCode { kind: 1, code: 115 },
            volume_down: EventCode { kind: 1, code: 114 },
            mute: EventCode { kind: 1, code: 164 },
        }
    );
}

#[test]
fn get_reads_the_field_of_the_role() {
    let keys = default_keys();
    let expected = [708, 544, 545, 547, 546, 311, 310, 706, 707, 115, 114, 164];
    for (role, code) in ROLES.iter().zip(expected) {
        assert_eq!(keys.get(*role), EventCode::key(code), "{:?}", role);
    }
}

#[test]
fn bind_changes_one_role_only() {
    for (i, role) in ROLES.iter().enumerate() {
        let mut keys = default_keys();
        let code = EventCode { kind: 1, code: 1000 + i as u16 };
        keys.bind(*role, code);
        for other in ROLES {
            if other == *role {
                assert_eq!(keys.get(other), code);
            } else {
                assert_eq!(keys.get(other), default_keys().get(other));
            }
        }
    }
}

#[test]
fn roles_may_share_a_code() {
    let mut keys = default_keys();
    let shared = EventCode::key(304);
    keys.bind(Role::VolUp, shared);
    keys.bind(Role::Mute, shared);
    assert_eq!(keys.vol_up, shared);
    assert_eq!(keys.mute, shared);
}
