use mpris_controller::{
    AttributeMap, DecodeError, Double, Expected, PlaybackStatus, PlayerCapabilities,
    PlayerUpdated, Registry, RegistryError, StringMap, Value, ValueKind,
};

fn reg_text(s: &str) -> Value {
    Value::Str(s.to_string())
}

fn reg_track(title: &str) -> Value {
    Value::Dict(vec![
        (reg_text("mpris:trackid"), reg_text("track")),
        (reg_text("xesam:artist"), Value::Array(vec![reg_text("Ada")])),
        (reg_text("xesam:title"), reg_text(title)),
        (reg_text("xesam:url"), reg_text("file:///t")),
    ])
}

fn reg_snapshot(title: &str) -> PlayerCapabilities {
    let mut map = AttributeMap::new();
    for key in ["CanControl", "CanGoNext", "CanGoPrevious", "CanPause", "CanPlay", "CanSeek"] {
        map.insert(key.to_string(), Value::Bool(true));
    }
    map.insert("Metadata".to_string(), reg_track(title));
    map.insert("Rate".to_string(), Value::F64(Double::from_bits(1.0f64.to_bits())));
    map.insert("PlaybackStatus".to_string(), reg_text("Playing"));
    map.insert("Position".to_string(), Value::U64(0));
    PlayerCapabilities::try_from(&map).unwrap()
}

fn reg_names(registry: &Registry<u32>) -> Vec<String> {
    registry.list().into_iter().map(|(name, _)| name.to_string()).collect()
}

#[test]
fn new_registry_is_empty() {
    let registry: Registry<u32> = Registry::new();
    assert_eq!(registry.len(), 0);
    assert!(registry.list().is_empty());
    assert!(registry.get("org.mpris.MediaPlayer2.a").is_none());
}

#[test]
fn discover_then_get() {
    let mut registry: Registry<u32> = Registry::new();
    registry.discover("org.mpris.MediaPlayer2.a", reg_snapshot("One"), 11);
    assert_eq!(registry.len(), 1);
    assert!(registry.contains("org.mpris.MediaPlayer2.a"));
    assert_eq!(registry.get("org.mpris.MediaPlayer2.a"), Some(&reg_snapshot("One")));
    assert_eq!(registry.player("org.mpris.MediaPlayer2.a").unwrap().stream.handle, 11);
    assert!(registry.player("org.mpris.MediaPlayer2.a").unwrap().stream.is_empty());
    assert!(registry.get("org.mpris.MediaPlayer2.b").is_none());
    assert!(registry.get("org.mpris.MediaPlayer2").is_none());
}

#[test]
fn discover_of_a_known_name_replaces_the_record() {
    let mut registry: Registry<u32> = Registry::new();
    registry.discover("a", reg_snapshot("One"), 1);
    registry.discover("b", reg_snapshot("Two"), 2);
    registry.discover("a", reg_snapshot("Three"), 3);
    assert_eq!(registry.len(), 2);
    assert_eq!(reg_names(&registry), vec!["a".to_string(), "b".to_string()]);
    assert_eq!(registry.get("a").unwrap().metadata.title, "Three");
    assert_eq!(registry.player("a").unwrap().stream.handle, 3);
    assert_eq!(registry.get("b").unwrap().metadata.title, "Two");
}

#[test]
fn remove_says_whether_there_was_a_player() {
    let mut registry: Registry<u32> = Registry::new();
    registry.discover("a", reg_snapshot("One"), 1);
    assert!(!registry.remove("b"));
    assert_eq!(registry.len(), 1);
    assert!(registry.remove("a"));
    assert_eq!(registry.len(), 0);
    assert!(registry.get("a").is_none());
}

#[test]
fn second_removal_does_nothing() {
    let mut registry: Registry<u32> = Registry::new();
    registry.discover("a", reg_snapshot("One"), 1);
    registry.discover("b", reg_snapshot("Two"), 2);
    assert!(registry.remove("a"));
    let after_first = reg_names(&registry);
    assert!(!registry.remove("a"));
    assert_eq!(reg_names(&registry), after_first);
    assert_eq!(after_first, vec!["b".to_string()]);
    assert_eq!(registry.get("b"), Some(&reg_snapshot("Two")));
}

#[test]
fn registry_holds_what_was_found_and_not_removed() {
    let mut registry: Registry<u32> = Registry::new();
    registry.discover("a", reg_snapshot("1"), 1);
    registry.discover("b", reg_snapshot("2"), 2);
    registry.discover("c", reg_snapshot("3"), 3);
    registry.remove("b");
    registry.discover("a", reg_snapshot("4"), 4);
    registry.remove("d");
    registry.discover("b", reg_snapshot("5"), 5);
    registry.remove("c");
    registry.remove("c");
    registry.discover("e", reg_snapshot("6"), 6);
    registry.remove("e");
    let mut names = reg_names(&registry);
    assert_eq!(names, vec!["a".to_string(), "b".to_string()]);
    names.dedup();
    assert_eq!(names.len(), registry.len());
    assert_eq!(registry.get("a").unwrap().metadata.title, "4");
    assert_eq!(registry.get("b").unwrap().metadata.title, "5");
}

#[test]
fn names_differing_in_one_character_are_kept_apart() {
    let mut registry: Registry<u32> = Registry::new();
    registry.discover("player", reg_snapshot("1"), 1);
    registry.discover("players", reg_snapshot("2"), 2);
    registry.discover("Player", reg_snapshot("3"), 3);
    registry.discover("", reg_snapshot("4"), 4);
    assert_eq!(registry.len(), 4);
    assert_eq!(registry.get("player").unwrap().metadata.title, "1");
    assert_eq!(registry.get("players").unwrap().metadata.title, "2");
    assert_eq!(registry.get("Player").unwrap().metadata.title, "3");
    assert_eq!(registry.get("").unwrap().metadata.title, "4");
    assert!(registry.get("playe").is_none());
}

#[test]
fn apply_update_of_an_unknown_name_is_not_found() {
    let mut registry: Registry<u32> = Registry::new();
    registry.discover("a", reg_snapshot("One"), 1);
    let mut changed = AttributeMap::new();
    changed.insert("PlaybackStatus".to_string(), reg_text("Paused"));
    assert_eq!(registry.apply_update("b", &changed), Err(RegistryError::NotFound));
    assert_eq!(registry.get("a"), Some(&reg_snapshot("One")));
}

#[test]
fn apply_update_patches_in_place_and_reports() {
    let mut registry: Registry<u32> = Registry::new();
    registry.discover("a", reg_snapshot("One"), 1);
    registry.discover("b", reg_snapshot("Two"), 2);
    let mut changed = AttributeMap::new();
    changed.insert("CanGoPrevious".to_string(), Value::Bool(false));
    changed.insert("Volume".to_string(), Value::I32(3));
    changed.insert("PlaybackStatus".to_string(), reg_text("Paused"));
    let reports = registry.apply_update("b", &changed).unwrap();
    assert_eq!(
        reports,
        vec![
            Ok(PlayerUpdated::PlaybackStatus),
            Ok(PlayerUpdated::CanGoPrevious),
            Err(DecodeError::TypeMismatch(
                "Volume".to_string(),
                Expected::Double,
                ValueKind::I32
            )),
        ]
    );
    let mut expected = reg_snapshot("Two");
    expected.can_previous = false;
    expected.playback_status = PlaybackStatus::Paused;
    assert_eq!(registry.get("b"), Some(&expected));
    assert_eq!(registry.get("a"), Some(&reg_snapshot("One")));
    assert_eq!(registry.player("b").unwrap().stream.handle, 2);
}

#[test]
fn list_is_in_the_order_of_discovery() {
    let mut registry: Registry<u32> = Registry::new();
    registry.discover("z", reg_snapshot("1"), 1);
    registry.discover("m", reg_snapshot("2"), 2);
    registry.discover("a", reg_snapshot("3"), 3);
    registry.remove("m");
    registry.discover("m", reg_snapshot("4"), 4);
    let listed: Vec<(String, String)> = registry
        .list()
        .into_iter()
        .map(|(name, c)| (name.to_string(), c.metadata.title.clone()))
        .collect();
    assert_eq!(
        listed,
        vec![
            ("z".to_string(), "1".to_string()),
            ("a".to_string(), "3".to_string()),
            ("m".to_string(), "4".to_string()),
        ]
    );
    assert_eq!(registry.name_at(2), "m");
    assert_eq!(registry.player_at(1).capabilities.metadata.title, "3");
    assert_eq!(registry.index_of("a"), Some(1));
    assert_eq!(registry.index_of("q"), None);
}

#[test]
fn player_at_mut_changes_one_player() {
    let mut registry: Registry<u32> = Registry::new();
    registry.discover("a", reg_snapshot("1"), 1);
    registry.discover("b", reg_snapshot("2"), 2);
    registry.player_at_mut(0).capabilities_mut().position = 99;
    registry.player_at_mut(1).stream_mut().handle = 20;
    assert_eq!(registry.get("a").unwrap().position, 99);
    assert_eq!(registry.player("a").unwrap().capabilities().position, 99);
    assert_eq!(registry.get("b").unwrap().position, 0);
    assert_eq!(registry.player("b").unwrap().stream.handle, 20);
    assert_eq!(registry.name_at(0), "a");
}

#[test]
fn string_map_keeps_one_value_for_each_key() {
    let mut map: StringMap<u32> = StringMap::new();
    assert_eq!(map.len(), 0);
    map.insert("one".to_string(), 1);
    map.insert("two".to_string(), 2);
    map.insert("one".to_string(), 10);
    assert_eq!(map.len(), 2);
    assert_eq!(map.get("one"), Some(&10));
    assert_eq!(map.get("two"), Some(&2));
    assert_eq!(map.get("three"), None);
    assert_eq!(map.get("on"), None);
    assert_eq!(map.get("ones"), None);
    assert!(map.contains_key("two"));
    assert!(!map.contains_key("Two"));
    assert_eq!(map.index_of("two"), Some(1));
    assert_eq!(map.key_at(0), "one");
    assert_eq!(*map.value_at(0), 10);
}

#[test]
fn string_map_remove_hands_back_the_value_and_keeps_the_order() {
    let mut map: StringMap<u32> = StringMap::new();
    map.insert("a".to_string(), 1);
    map.insert("b".to_string(), 2);
    map.insert("c".to_string(), 3);
    assert_eq!(map.remove("b"), Some(2));
    assert_eq!(map.remove("b"), None);
    assert_eq!(map.len(), 2);
    assert_eq!(map.key_at(0), "a");
    assert_eq!(map.key_at(1), "c");
    *map.value_at_mut(1) = 30;
    assert_eq!(map.get("c"), Some(&30));
    assert_eq!(map.get("a"), Some(&1));
}

#[test]
fn string_map_tells_keys_apart_by_their_characters() {
    let mut map: StringMap<u32> = StringMap::new();
    map.insert("caf\u{e9}".to_string(), 1);
    map.insert("cafe\u{301}".to_string(), 2);
    map.insert("cafe".to_string(), 3);
    map.insert("\u{97f3}\u{697d}".to_string(), 4);
    map.insert("\u{97f3}".to_string(), 5);
    assert_eq!(map.len(), 5);
    assert_eq!(map.get("caf\u{e9}"), Some(&1));
    assert_eq!(map.get("cafe\u{301}"), Some(&2));
    assert_eq!(map.get("cafe"), Some(&3));
    assert_eq!(map.get("\u{97f3}\u{697d}"), Some(&4));
    assert_eq!(map.get("\u{97f3}"), Some(&5));
    assert_eq!(map.get("\u{697d}"), None);
    assert_eq!(map.get("caf"), None);
    map.insert("caf\u{e9}".to_string(), 10);
    assert_eq!(map.len(), 5);
    assert_eq!(map.get("caf\u{e9}"), Some(&10));
}
