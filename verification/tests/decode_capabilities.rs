use mpris_controller::{
    AttributeMap, DecodeError, Double, Expected, LoopStatus, PlaybackStatus, PlayerCapabilities,
    Value, ValueKind,
};

fn cap_text(s: &str) -> Value {
    Value::Str(s.to_string())
}

fn cap_double(x: f64) -> Value {
    Value::F64(Double::from_bits(x.to_bits()))
}

fn cap_track() -> Value {
    Value::Dict(vec![
        (cap_text("mpris:trackid"), Value::Value(Box::new(cap_text("track-1")))),
        (
            cap_text("xesam:artist"),
            Value::Value(Box::new(Value::Array(vec![cap_text("Ada")]))),
        ),
        (cap_text("xesam:title"), Value::Value(Box::new(cap_text("Engines")))),
        (cap_text("xesam:url"), Value::Value(Box::new(cap_text("file:///e.flac")))),
    ])
}

fn cap_required() -> Vec<(&'static str, Value)> {
    vec![
        ("CanControl", Value::Bool(true)),
        ("CanGoNext", Value::Bool(false)),
        ("CanGoPrevious", Value::Bool(true)),
        ("CanPause", Value::Bool(false)),
        ("CanPlay", Value::Bool(true)),
        ("CanSeek", Value::Bool(false)),
        ("Metadata", cap_track()),
        ("Rate", cap_double(1.0)),
        ("PlaybackStatus", cap_text("Playing")),
        ("Position", Value::I64(42_000)),
    ]
}

fn cap_map(entries: Vec<(&'static str, Value)>) -> AttributeMap {
    let mut map = AttributeMap::new();
    for (k, v) in entries {
        map.insert(k.to_string(), v);
    }
    map
}

fn cap_with(key: &'static str, v: Value) -> AttributeMap {
    let mut map = cap_map(cap_required());
    map.insert(key.to_string(), v);
    map
}

fn cap_without(key: &str) -> AttributeMap {
    cap_map(cap_required().into_iter().filter(|(k, _)| *k != key).collect())
}

fn cap_mismatch(name: &str, expected: Expected, actual: ValueKind) -> DecodeError {
    DecodeError::TypeMismatch(name.to_string(), expected, actual)
}

#[test]
fn capabilities_with_only_required_fields_leave_the_rest_unset() {
    let c = PlayerCapabilities::try_from(&cap_map(cap_required())).unwrap();
    assert!(c.can_control);
    assert!(!c.can_next);
    assert!(c.can_previous);
    assert!(!c.can_pause);
    assert!(c.can_play);
    assert!(!c.can_seek);
    assert_eq!(c.loop_status, None);
    assert_eq!(c.max_rate, None);
    assert_eq!(c.min_rate, None);
    assert_eq!(c.metadata.title, "Engines");
    assert_eq!(c.metadata.artists, vec!["Ada".to_string()]);
    assert_eq!(c.metadata.album, None);
    assert_eq!(c.playback_status, PlaybackStatus::Playing);
    assert_eq!(c.position, 42_000);
    assert_eq!(f64::from_bits(c.rate.to_bits()), 1.0);
    assert_eq!(c.shuffle, None);
    assert_eq!(c.volume, None);
}

#[test]
fn capabilities_keep_every_optional_field_that_is_there() {
    let mut entries = cap_required();
    entries.push(("Shuffle", Value::Bool(false)));
    entries.push(("LoopStatus", cap_text("Playlist")));
    entries.push(("MaximumRate", cap_double(2.5)));
    entries.push(("MinimumRate", cap_double(0.25)));
    entries.push(("Volume", cap_double(0.5)));
    let c = PlayerCapabilities::try_from(&cap_map(entries)).unwrap();
    assert_eq!(c.shuffle, Some(false));
    assert_eq!(c.loop_status, Some(LoopStatus::Playlist));
    assert_eq!(c.max_rate, Some(Double::from_bits(2.5f64.to_bits())));
    assert_eq!(c.min_rate, Some(Double::from_bits(0.25f64.to_bits())));
    assert_eq!(c.volume.map(|d| f64::from_bits(d.to_bits())), Some(0.5));
}

#[test]
fn capabilities_keep_a_number_that_is_not_a_number_bit_for_bit() {
    let bits = 0x7ff8_0000_0000_1234u64;
    let c = PlayerCapabilities::try_from(&cap_with("Volume", Value::F64(Double::from_bits(bits))))
        .unwrap();
    assert_eq!(c.volume.map(|d| d.to_bits()), Some(bits));
}

#[test]
fn capabilities_missing_each_required_key_name_it() {
    for key in [
        "CanControl",
        "CanGoNext",
        "CanGoPrevious",
        "CanPause",
        "CanPlay",
        "CanSeek",
        "Metadata",
        "Rate",
        "PlaybackStatus",
        "Position",
    ] {
        assert_eq!(
            PlayerCapabilities::try_from(&cap_without(key)),
            Err(DecodeError::MissingField(key.to_string()))
        );
    }
}

#[test]
fn capabilities_empty_map_lacks_the_first_key() {
    assert_eq!(
        PlayerCapabilities::try_from(&AttributeMap::new()),
        Err(DecodeError::MissingField("CanControl".to_string()))
    );
}

#[test]
fn capabilities_missing_key_is_reported_before_a_wrong_type() {
    let mut map = cap_without("Position");
    map.insert("CanControl".to_string(), Value::I32(1));
    assert_eq!(
        PlayerCapabilities::try_from(&map),
        Err(DecodeError::MissingField("Position".to_string()))
    );
}

#[test]
fn capabilities_report_the_first_wrong_type_in_reading_order() {
    let mut map = cap_map(cap_required());
    map.insert("Rate".to_string(), Value::I32(1));
    map.insert("CanPlay".to_string(), cap_text("yes"));
    assert_eq!(
        PlayerCapabilities::try_from(&map),
        Err(cap_mismatch("CanPlay", Expected::Bool, ValueKind::Str))
    );
}

#[test]
fn capabilities_fields_of_the_wrong_type_are_mismatches() {
    let cases: Vec<(&'static str, Value, Expected, ValueKind)> = vec![
        ("CanControl", Value::U8(1), Expected::Bool, ValueKind::U8),
        ("CanGoNext", Value::I16(1), Expected::Bool, ValueKind::I16),
        ("CanGoPrevious", Value::U16(1), Expected::Bool, ValueKind::U16),
        ("CanPause", Value::I32(1), Expected::Bool, ValueKind::I32),
        ("CanPlay", Value::U32(1), Expected::Bool, ValueKind::U32),
        ("CanSeek", Value::Fd(3), Expected::Bool, ValueKind::Fd),
        ("Shuffle", cap_text("on"), Expected::Bool, ValueKind::Str),
        ("MaximumRate", Value::I64(2), Expected::Double, ValueKind::I64),
        ("MinimumRate", Value::U64(0), Expected::Double, ValueKind::U64),
        ("Metadata", Value::Structure(vec![]), Expected::Dictionary, ValueKind::Structure),
        ("Rate", Value::Bool(true), Expected::Double, ValueKind::Bool),
        ("PlaybackStatus", Value::I32(42), Expected::Text, ValueKind::I32),
        ("Position", cap_double(1.0), Expected::Integer64, ValueKind::F64),
        ("Volume", Value::Bool(false), Expected::Double, ValueKind::Bool),
    ];
    for (key, value, expected, actual) in cases {
        assert_eq!(
            PlayerCapabilities::try_from(&cap_with(key, value)),
            Err(cap_mismatch(key, expected, actual))
        );
    }
}

#[test]
fn capabilities_top_level_values_are_not_read_through_a_variant() {
    assert_eq!(
        PlayerCapabilities::try_from(&cap_with(
            "CanControl",
            Value::Value(Box::new(Value::Bool(true)))
        )),
        Err(cap_mismatch("CanControl", Expected::Bool, ValueKind::Value))
    );
}

#[test]
fn capabilities_words_outside_the_vocabulary_are_invalid() {
    assert_eq!(
        PlayerCapabilities::try_from(&cap_with("PlaybackStatus", cap_text("playing"))),
        Err(DecodeError::InvalidEnum("PlaybackStatus".to_string(), "playing".to_string()))
    );
    assert_eq!(
        PlayerCapabilities::try_from(&cap_with("LoopStatus", cap_text("Album"))),
        Err(DecodeError::InvalidEnum("LoopStatus".to_string(), "Album".to_string()))
    );
}

#[test]
fn capabilities_fail_with_the_error_of_their_metadata() {
    let track = Value::Dict(vec![(cap_text("xesam:title"), cap_text("Engines"))]);
    assert_eq!(
        PlayerCapabilities::try_from(&cap_with("Metadata", track)),
        Err(DecodeError::MissingField("mpris:trackid".to_string()))
    );
}

#[test]
fn position_is_the_same_signed_and_unsigned() {
    let signed = PlayerCapabilities::try_from(&cap_with("Position", Value::I64(7_500_000)));
    let unsigned = PlayerCapabilities::try_from(&cap_with("Position", Value::U64(7_500_000)));
    assert_eq!(signed.as_ref().map(|c| c.position), Ok(7_500_000));
    assert_eq!(signed, unsigned);
    let zero = PlayerCapabilities::try_from(&cap_with("Position", Value::I64(0))).unwrap();
    assert_eq!(zero.position, 0);
    let top = PlayerCapabilities::try_from(&cap_with("Position", Value::I64(i64::MAX))).unwrap();
    assert_eq!(top.position, i64::MAX as u64);
}

#[test]
fn negative_position_keeps_its_bits() {
    let c = PlayerCapabilities::try_from(&cap_with("Position", Value::I64(-5))).unwrap();
    assert_eq!(c.position, 18_446_744_073_709_551_611);
}

#[test]
fn loop_status_reads_its_vocabulary() {
    assert_eq!(LoopStatus::try_from(&cap_text("None")), Ok(LoopStatus::NoLoop));
    assert_eq!(LoopStatus::try_from(&cap_text("Playlist")), Ok(LoopStatus::Playlist));
    assert_eq!(LoopStatus::try_from(&cap_text("Track")), Ok(LoopStatus::Track));
    assert_eq!(
        LoopStatus::try_from(&cap_text("")),
        Err(DecodeError::InvalidEnum("LoopStatus".to_string(), String::new()))
    );
}

#[test]
fn loop_status_that_is_no_string_is_an_invalid_member() {
    let no_text = Err(DecodeError::InvalidEnum("LoopStatus".to_string(), String::new()));
    assert_eq!(LoopStatus::try_from(&Value::U8(0)), no_text);
    assert_eq!(LoopStatus::try_from(&Value::I32(42)), no_text);
    assert_eq!(LoopStatus::try_from(&Value::Bool(true)), no_text);
    assert_eq!(LoopStatus::try_from(&Value::ObjectPath("Track".to_string())), no_text);
    assert_eq!(
        LoopStatus::try_from(&Value::Value(Box::new(cap_text("Track")))),
        no_text
    );
    assert_eq!(LoopStatus::try_from(&Value::Array(vec![cap_text("Track")])), no_text);
    assert_eq!(
        PlayerCapabilities::try_from(&cap_with("LoopStatus", Value::Bool(true))),
        Err(DecodeError::InvalidEnum("LoopStatus".to_string(), String::new()))
    );
}

#[test]
fn patch_of_a_loop_status_that_is_no_string_changes_nothing() {
    let mut entries = cap_required();
    entries.push(("LoopStatus", cap_text("Playlist")));
    let mut c = PlayerCapabilities::try_from(&cap_map(entries)).unwrap();
    let before = c.clone();
    assert_eq!(
        c.patch("LoopStatus", &Value::I64(1)),
        Err(DecodeError::InvalidEnum("LoopStatus".to_string(), String::new()))
    );
    assert_eq!(
        c.patch("LoopStatus", &cap_text("Album")),
        Err(DecodeError::InvalidEnum("LoopStatus".to_string(), "Album".to_string()))
    );
    assert_eq!(c, before);
    assert_eq!(c.loop_status, Some(LoopStatus::Playlist));
}

#[test]
fn statuses_have_their_defaults() {
    assert_eq!(PlaybackStatus::default(), PlaybackStatus::Stopped);
    assert_eq!(LoopStatus::default(), LoopStatus::NoLoop);
}

#[test]
fn playback_status_is_case_sensitive() {
    assert_eq!(
        PlaybackStatus::try_from(&cap_text("PLAYING")),
        Err(DecodeError::InvalidEnum("PlaybackStatus".to_string(), "PLAYING".to_string()))
    );
    assert_eq!(
        PlaybackStatus::try_from(&cap_text("Playing ")),
        Err(DecodeError::InvalidEnum("PlaybackStatus".to_string(), "Playing ".to_string()))
    );
}

#[test]
fn patch_sets_one_field_and_keeps_the_others() {
    let mut c = PlayerCapabilities::try_from(&cap_map(cap_required())).unwrap();
    let before = c.clone();
    assert_eq!(c.patch("Volume", &cap_double(0.125)), Ok(()));
    assert_eq!(c.volume, Some(Double::from_bits(0.125f64.to_bits())));
    let mut expected = before.clone();
    expected.volume = Some(Double::from_bits(0.125f64.to_bits()));
    assert_eq!(c, expected);

    assert_eq!(c.patch("Position", &Value::U64(9)), Ok(()));
    assert_eq!(c.position, 9);
    assert_eq!(c.patch("CanSeek", &Value::Bool(true)), Ok(()));
    assert!(c.can_seek);
    assert_eq!(c.patch("LoopStatus", &cap_text("Track")), Ok(()));
    assert_eq!(c.loop_status, Some(LoopStatus::Track));
    assert_eq!(c.patch("Shuffle", &Value::Bool(true)), Ok(()));
    assert_eq!(c.shuffle, Some(true));
    assert_eq!(c.patch("Rate", &cap_double(2.0)), Ok(()));
    assert_eq!(f64::from_bits(c.rate.to_bits()), 2.0);
    assert_eq!(c.metadata, before.metadata);
    assert_eq!(c.playback_status, before.playback_status);
}

#[test]
fn patch_ignores_a_key_that_names_no_field() {
    let mut c = PlayerCapabilities::try_from(&cap_map(cap_required())).unwrap();
    let before = c.clone();
    assert_eq!(c.patch("Identity", &cap_text("Some Player")), Ok(()));
    assert_eq!(c, before);
}

#[test]
fn patch_that_is_turned_down_changes_nothing() {
    let mut c = PlayerCapabilities::try_from(&cap_map(cap_required())).unwrap();
    let before = c.clone();
    assert_eq!(
        c.patch("Metadata", &Value::Dict(vec![])),
        Err(DecodeError::MissingField("mpris:trackid".to_string()))
    );
    assert_eq!(
        c.patch("CanGoPrevious", &Value::I32(0)),
        Err(cap_mismatch("CanGoPrevious", Expected::Bool, ValueKind::I32))
    );
    assert_eq!(c, before);
}
