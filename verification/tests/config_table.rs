use music_hotkey_mapper::config::{parse_action, Config, MediaAction};
use music_hotkey_mapper::keys::PhysicalKey;

const ALL_KEYS: [PhysicalKey; 12] = [
    PhysicalKey::F1,
    PhysicalKey::F2,
    PhysicalKey::F3,
    PhysicalKey::F4,
    PhysicalKey::F5,
    PhysicalKey::F6,
    PhysicalKey::F7,
    PhysicalKey::F8,
    PhysicalKey::F9,
    PhysicalKey::F10,
    PhysicalKey::F11,
    PhysicalKey::F12,
];

#[test]
fn default_table_has_exactly_the_six_bindings() {
    let config = Config::default();
    assert_eq!(config.lookup(PhysicalKey::F7), Some(MediaAction::Previous));
    assert_eq!(config.lookup(PhysicalKey::F8), Some(MediaAction::PlayPause));
    assert_eq!(config.lookup(PhysicalKey::F9), Some(MediaAction::Next));
    assert_eq!(config.lookup(PhysicalKey::F10), Some(MediaAction::Stop));
    assert_eq!(config.lookup(PhysicalKey::F11), Some(MediaAction::VolumeDown));
    assert_eq!(config.lookup(PhysicalKey::F12), Some(MediaAction::VolumeUp));
    assert_eq!(config.lookup(PhysicalKey::F1), None);
    assert_eq!(config.lookup(PhysicalKey::F2), None);
    assert_eq!(config.lookup(PhysicalKey::F3), None);
    assert_eq!(config.lookup(PhysicalKey::F4), None);
    assert_eq!(config.lookup(PhysicalKey::F5), None);
    assert_eq!(config.lookup(PhysicalKey::F6), None);
    assert_eq!(
        config.bindings(),
        vec![
            (PhysicalKey::F7, MediaAction::Previous),
            (PhysicalKey::F8, MediaAction::PlayPause),
            (PhysicalKey::F9, MediaAction::Next),
            (PhysicalKey::F10, MediaAction::Stop),
            (PhysicalKey::F11, MediaAction::VolumeDown),
            (PhysicalKey::F12, MediaAction::VolumeUp),
        ]
    );
}

#[test]
fn new_table_binds_nothing() {
    let config = Config::new();
    for key in ALL_KEYS {
        assert_eq!(config.lookup(key), None);
        assert!(!config.contains_key(key));
    }
    assert!(config.bindings().is_empty());
}

#[test]
fn insert_binds_one_key_and_returns_the_old_action() {
    let mut config = Config::new();
    assert_eq!(config.insert(PhysicalKey::F3, MediaAction::Stop), None);
    assert_eq!(config.lookup(PhysicalKey::F3), Some(MediaAction::Stop));
    assert_eq!(
        config.insert(PhysicalKey::F3, MediaAction::Next),
        Some(MediaAction::Stop)
    );
    assert_eq!(config.lookup(PhysicalKey::F3), Some(MediaAction::Next));
    assert_eq!(config.bindings(), vec![(PhysicalKey::F3, MediaAction::Next)]);
    for key in ALL_KEYS {
        if key != PhysicalKey::F3 {
            assert_eq!(config.lookup(key), None);
        }
    }
}

#[test]
fn a_key_has_at_most_one_action() {
    let mut config = Config::new();
    config.insert(PhysicalKey::F5, MediaAction::VolumeUp);
    config.insert(PhysicalKey::F5, MediaAction::VolumeDown);
    config.insert(PhysicalKey::F5, MediaAction::PlayPause);
    assert_eq!(
        config.bindings(),
        vec![(PhysicalKey::F5, MediaAction::PlayPause)]
    );
}

#[test]
fn remove_unbinds_one_key() {
    let mut config = Config::default();
    assert_eq!(config.remove(PhysicalKey::F9), Some(MediaAction::Next));
    assert_eq!(config.lookup(PhysicalKey::F9), None);
    assert_eq!(config.remove(PhysicalKey::F9), None);
    assert_eq!(config.remove(PhysicalKey::F1), None);
    assert_eq!(config.lookup(PhysicalKey::F8), Some(MediaAction::PlayPause));
    assert_eq!(config.bindings().len(), 5);
}

#[test]
fn contains_key_agrees_with_lookup() {
    let config = Config::default();
    for key in ALL_KEYS {
        assert_eq!(config.contains_key(key), config.lookup(key).is_some());
    }
}

#[test]
fn replace_swaps_the_whole_table() {
    let mut table = Config::default();
    let mut new_table = Config::new();
    new_table.insert(PhysicalKey::F1, MediaAction::Stop);
    new_table.insert(PhysicalKey::F8, MediaAction::Next);
    table.replace(new_table);
    // Nothing of the old table is left, not even for keys that the new one
    // leaves free.
    assert_eq!(table.lookup(PhysicalKey::F1), Some(MediaAction::Stop));
    assert_eq!(table.lookup(PhysicalKey::F8), Some(MediaAction::Next));
    assert_eq!(table.lookup(PhysicalKey::F7), None);
    assert_eq!(table.lookup(PhysicalKey::F9), None);
    assert_eq!(table.lookup(PhysicalKey::F10), None);
    assert_eq!(table.lookup(PhysicalKey::F11), None);
    assert_eq!(table.lookup(PhysicalKey::F12), None);
    assert_eq!(
        table.bindings(),
        vec![
            (PhysicalKey::F1, MediaAction::Stop),
            (PhysicalKey::F8, MediaAction::Next),
        ]
    );
}

#[test]
fn replace_with_an_empty_table_unbinds_everything() {
    let mut table = Config::default();
    table.replace(Config::new());
    assert!(table.bindings().is_empty());
}

#[test]
fn clone_keeps_the_bindings_and_is_independent() {
    let first = Config::default();
    let mut copy = first.clone();
    assert_eq!(copy.bindings(), first.bindings());
    copy.remove(PhysicalKey::F7);
    assert_eq!(first.lookup(PhysicalKey::F7), Some(MediaAction::Previous));
}

#[test]
fn bindings_are_listed_in_key_order() {
    let mut config = Config::new();
    config.insert(PhysicalKey::F12, MediaAction::Stop);
    config.insert(PhysicalKey::F2, MediaAction::Next);
    config.insert(PhysicalKey::F10, MediaAction::Previous);
    config.insert(PhysicalKey::F1, MediaAction::PlayPause);
    assert_eq!(
        config.bindings(),
        vec![
            (PhysicalKey::F1, MediaAction::PlayPause),
            (PhysicalKey::F2, MediaAction::Next),
            (PhysicalKey::F10, MediaAction::Previous),
            (PhysicalKey::F12, MediaAction::Stop),
        ]
    );
}

#[test]
fn action_names() {
    assert_eq!(MediaAction::PlayPause.as_str(), "PlayPause");
    assert_eq!(MediaAction::Next.as_str(), "Next");
    assert_eq!(MediaAction::Previous.as_str(), "Previous");
    assert_eq!(MediaAction::VolumeUp.as_str(), "VolumeUp");
    assert_eq!(MediaAction::VolumeDown.as_str(), "VolumeDown");
    assert_eq!(MediaAction::Stop.as_str(), "Stop");
}

#[test]
fn parse_action_reads_the_six_names_and_nothing_else() {
    assert_eq!(parse_action("PlayPause"), Some(MediaAction::PlayPause));
    assert_eq!(parse_action("Next"), Some(MediaAction::Next));
    assert_eq!(parse_action("Previous"), Some(MediaAction::Previous));
    assert_eq!(parse_action("VolumeUp"), Some(MediaAction::VolumeUp));
    assert_eq!(parse_action("VolumeDown"), Some(MediaAction::VolumeDown));
    assert_eq!(parse_action("Stop"), Some(MediaAction::Stop));
    assert_eq!(parse_action(""), None);
    assert_eq!(parse_action("stop"), None);
    assert_eq!(parse_action("Play/Pause"), None);
    assert_eq!(parse_action("Stop "), None);
    assert_eq!(parse_action("Mute"), None);
}
