use mpris_controller::{
    AttributeMap, DecodeError, Double, Expected, MprisClient, MprisEvent, NameOwnerChanged,
    OwnerChange, PlaybackStatus, Player, PlayerBuilder, PlayerUpdated, PropertiesChanged,
    RegistryError, SignalStream, Step, Value, ValueKind,
};

const P: &str = "org.mpris.MediaPlayer2.vlc";
const Q: &str = "org.mpris.MediaPlayer2.mpv";

fn cl_text(s: &str) -> Value {
    Value::Str(s.to_string())
}

fn cl_track(title: &str, album: Option<&str>, artists: &[&str]) -> Value {
    let mut entries = vec![
        (cl_text("mpris:trackid"), Value::ObjectPath("/track/1".to_string())),
        (
            cl_text("xesam:artist"),
            Value::Array(artists.iter().map(|a| cl_text(a)).collect()),
        ),
        (cl_text("xesam:title"), cl_text(title)),
        (cl_text("xesam:url"), cl_text("file:///t")),
    ];
    if let Some(album) = album {
        entries.push((cl_text("xesam:album"), cl_text(album)));
    }
    Value::Dict(entries)
}

fn cl_properties(status: &str) -> AttributeMap {
    let mut map = AttributeMap::new();
    for key in ["CanControl", "CanGoNext", "CanGoPrevious", "CanPause", "CanPlay", "CanSeek"] {
        map.insert(key.to_string(), Value::Bool(true));
    }
    map.insert("Metadata".to_string(), cl_track("Engines", Some("Difference"), &["Ada"]));
    map.insert("Rate".to_string(), Value::F64(Double::from_bits(1.0f64.to_bits())));
    map.insert("PlaybackStatus".to_string(), cl_text(status));
    map.insert("Position".to_string(), Value::I64(5));
    map
}

fn cl_owner(name: &str, old_owner: &str, new_owner: &str) -> OwnerChange {
    OwnerChange {
        name: name.to_string(),
        old_owner: old_owner.to_string(),
        new_owner: new_owner.to_string(),
    }
}

fn cl_changed(entries: Vec<(&str, Value)>) -> PropertiesChanged {
    let mut changed = AttributeMap::new();
    for (k, v) in entries {
        changed.insert(k.to_string(), v);
    }
    PropertiesChanged {
        interface: "org.mpris.MediaPlayer2.Player".to_string(),
        changed,
        invalidated: Vec::new(),
    }
}

fn cl_appeared(name: &str) -> Step {
    Step::Event(MprisEvent::NameOwnerChanged(name.to_string(), NameOwnerChanged::NewPlayer))
}

fn cl_removed(name: &str) -> Step {
    Step::Event(MprisEvent::NameOwnerChanged(name.to_string(), NameOwnerChanged::RemovedPlayer))
}

fn cl_updated(name: &str, field: PlayerUpdated) -> Step {
    Step::Event(MprisEvent::PlayerUpdated(name.to_string(), field))
}

/// A client that knows the player `P`, playing, with nothing left to hand
/// out.
fn cl_client_with_p() -> MprisClient<u32> {
    let mut client: MprisClient<u32> = MprisClient::new(0);
    client.add(P, &cl_properties("Playing"), 1).unwrap();
    assert_eq!(client.event(), cl_appeared(P));
    assert_eq!(client.event(), Step::Idle);
    client
}

#[test]
fn new_client_is_idle() {
    let mut client: MprisClient<u32> = MprisClient::new(7);
    assert_eq!(client.players.len(), 0);
    assert_eq!(client.owner_changed_signal.handle, 7);
    assert_eq!(client.event(), Step::Idle);
    assert_eq!(client.event(), Step::Idle);
    assert!(client.get(P).is_none());
}

#[test]
fn appeared_then_disappeared_in_that_order() {
    let mut client: MprisClient<u32> = MprisClient::new(0);
    client.deliver_owner_changed(cl_owner(P, "", "u1"));
    client.deliver_owner_changed(cl_owner(P, "u1", ""));

    assert_eq!(client.event(), Step::Discover(P.to_string()));
    assert_eq!(client.add(P, &cl_properties("Playing"), 1), Ok(()));
    assert!(client.get(P).is_some());
    assert_eq!(client.event(), cl_appeared(P));
    assert_eq!(client.event(), cl_removed(P));
    assert!(client.get(P).is_none());
    assert!(client.players.get(P).is_none());
    assert_eq!(client.players.len(), 0);
    assert_eq!(client.event(), Step::Idle);
}

#[test]
fn partial_update_of_the_playback_status() {
    let mut client = cl_client_with_p();
    let metadata_before = client.get(P).unwrap().capabilities.metadata.clone();
    assert_eq!(client.get(P).unwrap().capabilities.playback_status, PlaybackStatus::Playing);

    assert_eq!(
        client.deliver_player_changed(P, cl_changed(vec![("PlaybackStatus", cl_text("Paused"))])),
        Ok(())
    );
    assert_eq!(client.event(), cl_updated(P, PlayerUpdated::PlaybackStatus));
    let player = client.get(P).unwrap();
    assert_eq!(player.capabilities.playback_status, PlaybackStatus::Paused);
    assert_eq!(player.capabilities.metadata, metadata_before);
    assert_eq!(client.event(), Step::Idle);
}

#[test]
fn malformed_playback_status_is_turned_down() {
    let mut client = cl_client_with_p();
    let before = client.get(P).unwrap().capabilities.clone();
    client
        .deliver_player_changed(P, cl_changed(vec![("PlaybackStatus", Value::I32(42))]))
        .unwrap();
    assert_eq!(
        client.event(),
        Step::Rejected(
            P.to_string(),
            DecodeError::TypeMismatch(
                "PlaybackStatus".to_string(),
                Expected::Text,
                ValueKind::I32
            )
        )
    );
    assert_eq!(client.get(P).unwrap().capabilities.playback_status, PlaybackStatus::Playing);
    assert_eq!(client.get(P).unwrap().capabilities, before);
    assert_eq!(client.event(), Step::Idle);
}

#[test]
fn metadata_is_replaced_as_a_whole() {
    let mut client = cl_client_with_p();
    assert_eq!(
        client.get(P).unwrap().capabilities.metadata.album,
        Some("Difference".to_string())
    );
    client
        .deliver_player_changed(
            P,
            cl_changed(vec![("Metadata", cl_track("Looms", None, &["Joseph", "Marie"]))]),
        )
        .unwrap();
    assert_eq!(client.event(), cl_updated(P, PlayerUpdated::Metadata));
    let metadata = &client.get(P).unwrap().capabilities.metadata;
    assert_eq!(metadata.album, None);
    assert_eq!(metadata.artists, vec!["Joseph".to_string(), "Marie".to_string()]);
    assert_eq!(metadata.title, "Looms");
}

#[test]
fn several_changes_in_one_announcement_come_out_one_by_one_in_a_fixed_order() {
    let mut client = cl_client_with_p();
    client
        .deliver_player_changed(
            P,
            cl_changed(vec![
                ("CanGoPrevious", Value::Bool(false)),
                ("Volume", Value::F64(Double::from_bits(0.5f64.to_bits()))),
                ("Metadata", Value::I32(0)),
                ("Unheard", Value::I32(0)),
                ("PlaybackStatus", cl_text("Stopped")),
            ]),
        )
        .unwrap();
    assert_eq!(client.event(), cl_updated(P, PlayerUpdated::PlaybackStatus));
    // Everything in the announcement is taken over at once.
    let c = client.get(P).unwrap().capabilities.clone();
    assert_eq!(c.playback_status, PlaybackStatus::Stopped);
    assert!(!c.can_previous);
    assert_eq!(c.volume, Some(Double::from_bits(0.5f64.to_bits())));
    assert_eq!(c.metadata.title, "Engines");
    assert_eq!(
        client.event(),
        Step::Rejected(
            P.to_string(),
            DecodeError::TypeMismatch("Metadata".to_string(), Expected::Dictionary, ValueKind::I32)
        )
    );
    assert_eq!(client.event(), cl_updated(P, PlayerUpdated::CanGoPrevious));
    assert_eq!(client.event(), Step::Idle);
}

#[test]
fn announcement_without_anything_to_report_is_consumed_silently() {
    let mut client = cl_client_with_p();
    client
        .deliver_player_changed(P, cl_changed(vec![("Position", Value::U64(77))]))
        .unwrap();
    client
        .deliver_player_changed(P, cl_changed(vec![("CanGoPrevious", Value::Bool(false))]))
        .unwrap();
    assert_eq!(client.event(), cl_updated(P, PlayerUpdated::CanGoPrevious));
    assert_eq!(client.get(P).unwrap().capabilities.position, 77);
    assert!(client.get(P).unwrap().stream.is_empty());
    assert_eq!(client.event(), Step::Idle);
}

#[test]
fn announcements_of_one_player_are_taken_in_their_order() {
    let mut client = cl_client_with_p();
    client
        .deliver_player_changed(P, cl_changed(vec![("PlaybackStatus", cl_text("Paused"))]))
        .unwrap();
    client
        .deliver_player_changed(P, cl_changed(vec![("PlaybackStatus", cl_text("Stopped"))]))
        .unwrap();
    assert_eq!(client.event(), cl_updated(P, PlayerUpdated::PlaybackStatus));
    assert_eq!(client.get(P).unwrap().capabilities.playback_status, PlaybackStatus::Paused);
    assert_eq!(client.event(), cl_updated(P, PlayerUpdated::PlaybackStatus));
    assert_eq!(client.get(P).unwrap().capabilities.playback_status, PlaybackStatus::Stopped);
    assert_eq!(client.event(), Step::Idle);
}

#[test]
fn changes_of_ownership_go_first() {
    let mut client = cl_client_with_p();
    client
        .deliver_player_changed(P, cl_changed(vec![("PlaybackStatus", cl_text("Paused"))]))
        .unwrap();
    client.deliver_owner_changed(cl_owner(Q, "", ":1.5"));
    assert_eq!(client.event(), Step::Discover(Q.to_string()));
    assert_eq!(client.get(P).unwrap().capabilities.playback_status, PlaybackStatus::Playing);
    client.add(Q, &cl_properties("Stopped"), 2).unwrap();
    assert_eq!(client.event(), cl_appeared(Q));
    assert_eq!(client.event(), cl_updated(P, PlayerUpdated::PlaybackStatus));
    assert_eq!(client.event(), Step::Idle);
}

#[test]
fn removal_drops_the_announcements_that_wait() {
    let mut client = cl_client_with_p();
    client
        .deliver_player_changed(P, cl_changed(vec![("PlaybackStatus", cl_text("Paused"))]))
        .unwrap();
    client.deliver_owner_changed(cl_owner(P, ":1.4", ""));
    assert_eq!(client.event(), cl_removed(P));
    assert_eq!(client.event(), Step::Idle);
    assert_eq!(
        client.deliver_player_changed(P, cl_changed(vec![])),
        Err(RegistryError::NotFound)
    );
}

#[test]
fn changes_of_ownership_that_mean_nothing_are_passed_over() {
    let mut client = cl_client_with_p();
    client.deliver_owner_changed(cl_owner("org.freedesktop.Notifications", "", ":1.9"));
    client.deliver_owner_changed(cl_owner(P, ":1.4", ":1.8"));
    client.deliver_owner_changed(cl_owner(P, "", ""));
    client.deliver_owner_changed(cl_owner("org.mpris.MediaPlayer", "", ":1.2"));
    client.deliver_owner_changed(cl_owner(":1.77", ":1.77", ""));
    client.deliver_owner_changed(cl_owner(Q, "", ":1.5"));
    client.deliver_owner_changed(cl_owner(Q, "", ":1.6"));
    assert_eq!(client.event(), Step::Discover(Q.to_string()));
    assert!(client.get(P).is_some());
    assert_eq!(client.event(), Step::Discover(Q.to_string()));
    assert_eq!(client.event(), Step::Idle);
}

#[test]
fn removal_of_an_unknown_player_is_still_an_event() {
    let mut client: MprisClient<u32> = MprisClient::new(0);
    client.deliver_owner_changed(cl_owner(P, ":1.4", ""));
    client.deliver_owner_changed(cl_owner(P, ":1.4", ""));
    assert_eq!(client.event(), cl_removed(P));
    assert_eq!(client.event(), cl_removed(P));
    assert_eq!(client.event(), Step::Idle);
    assert_eq!(client.players.len(), 0);
}

#[test]
fn attributes_that_are_no_record_add_no_player() {
    let mut client = cl_client_with_p();
    let mut incomplete = cl_properties("Playing");
    incomplete.remove("Rate");
    assert_eq!(
        client.add(Q, &incomplete, 2),
        Err(DecodeError::MissingField("Rate".to_string()))
    );
    assert!(client.get(Q).is_none());
    assert_eq!(client.players.len(), 1);
    assert_eq!(client.event(), Step::Idle);

    let mut malformed = cl_properties("Playing");
    malformed.insert("PlaybackStatus".to_string(), cl_text("Rewinding"));
    assert_eq!(
        client.add(P, &malformed, 3),
        Err(DecodeError::InvalidEnum("PlaybackStatus".to_string(), "Rewinding".to_string()))
    );
    assert_eq!(client.get(P).unwrap().stream.handle, 1);
    assert_eq!(client.event(), Step::Idle);
}

#[test]
fn add_of_a_known_name_replaces_the_player() {
    let mut client = cl_client_with_p();
    client
        .deliver_player_changed(P, cl_changed(vec![("PlaybackStatus", cl_text("Paused"))]))
        .unwrap();
    client.add(P, &cl_properties("Stopped"), 9).unwrap();
    assert_eq!(client.players.len(), 1);
    assert_eq!(client.get(P).unwrap().stream.handle, 9);
    assert!(client.get(P).unwrap().stream.is_empty());
    assert_eq!(client.event(), cl_appeared(P));
    assert_eq!(client.event(), Step::Idle);
    assert_eq!(client.get(P).unwrap().capabilities.playback_status, PlaybackStatus::Stopped);
}

#[test]
fn players_are_served_in_the_order_of_the_registry() {
    let mut client = cl_client_with_p();
    client.add(Q, &cl_properties("Playing"), 2).unwrap();
    assert_eq!(client.event(), cl_appeared(Q));
    client
        .deliver_player_changed(Q, cl_changed(vec![("CanGoPrevious", Value::Bool(false))]))
        .unwrap();
    client
        .deliver_player_changed(P, cl_changed(vec![("PlaybackStatus", cl_text("Paused"))]))
        .unwrap();
    assert_eq!(client.handle_players_changed(), cl_updated(P, PlayerUpdated::PlaybackStatus));
    assert_eq!(client.handle_players_changed(), cl_updated(Q, PlayerUpdated::CanGoPrevious));
    assert_eq!(client.handle_players_changed(), Step::Idle);
}

#[test]
fn handle_player_changed_serves_one_player() {
    let mut client = cl_client_with_p();
    client.add(Q, &cl_properties("Playing"), 2).unwrap();
    assert_eq!(client.event(), cl_appeared(Q));
    client
        .deliver_player_changed(P, cl_changed(vec![("PlaybackStatus", cl_text("Paused"))]))
        .unwrap();
    client
        .deliver_player_changed(
            Q,
            cl_changed(vec![
                ("PlaybackStatus", cl_text("Paused")),
                ("CanGoPrevious", Value::Bool(false)),
            ]),
        )
        .unwrap();
    assert_eq!(client.handle_player_changed(5), Step::Idle);
    assert_eq!(client.handle_player_changed(1), cl_updated(Q, PlayerUpdated::PlaybackStatus));
    assert_eq!(client.handle_player_changed(1), Step::Idle);
    // What is left of the first announcement is handed out before anything
    // new is looked at.
    assert_eq!(client.event(), cl_updated(Q, PlayerUpdated::CanGoPrevious));
    assert_eq!(client.event(), cl_updated(P, PlayerUpdated::PlaybackStatus));
    assert_eq!(client.event(), Step::Idle);
}

#[test]
fn handle_owner_changed_leaves_the_players_feeds_alone() {
    let mut client = cl_client_with_p();
    client
        .deliver_player_changed(P, cl_changed(vec![("PlaybackStatus", cl_text("Paused"))]))
        .unwrap();
    assert_eq!(client.handle_owner_changed(), Step::Idle);
    assert!(!client.get(P).unwrap().stream.is_empty());
    assert_eq!(client.get(P).unwrap().capabilities.playback_status, PlaybackStatus::Playing);
}

#[test]
fn get_all_picks_the_players_among_the_names() {
    let client: MprisClient<u32> = MprisClient::new(0);
    let names: Vec<String> = [
        "org.freedesktop.DBus",
        ":1.42",
        "org.mpris.MediaPlayer2.vlc",
        "org.mpris.MediaPlayer2",
        "org.mpris.MediaPlayer",
        "com.example.org.mpris.MediaPlayer2.fake",
        "org.mpris.MediaPlayer2.mpv",
        "",
    ]
    .iter()
    .map(|s| s.to_string())
    .collect();
    assert_eq!(
        client.get_all(&names),
        vec![
            "org.mpris.MediaPlayer2.vlc".to_string(),
            "org.mpris.MediaPlayer2".to_string(),
            "org.mpris.MediaPlayer2.mpv".to_string(),
        ]
    );
    assert_eq!(client.get_all(&Vec::new()), Vec::<String>::new());
}

#[test]
fn owner_change_says_what_it_means() {
    assert_eq!(cl_owner(P, "", ":1.1").meaning(), Some(NameOwnerChanged::NewPlayer));
    assert_eq!(cl_owner(P, ":1.1", "").meaning(), Some(NameOwnerChanged::RemovedPlayer));
    assert_eq!(cl_owner(P, ":1.1", ":1.2").meaning(), None);
    assert_eq!(cl_owner(P, "", "").meaning(), None);
    assert_eq!(cl_owner("org.example.Other", "", ":1.1").meaning(), None);
    assert_eq!(cl_owner("org.example.Other", ":1.1", "").meaning(), None);
}

#[test]
fn only_three_keys_announce_a_field() {
    assert_eq!(PlayerUpdated::for_key("PlaybackStatus"), Some(PlayerUpdated::PlaybackStatus));
    assert_eq!(PlayerUpdated::for_key("Metadata"), Some(PlayerUpdated::Metadata));
    assert_eq!(PlayerUpdated::for_key("CanGoPrevious"), Some(PlayerUpdated::CanGoPrevious));
    assert_eq!(PlayerUpdated::for_key("CanGoNext"), None);
    assert_eq!(PlayerUpdated::for_key("Volume"), None);
    assert_eq!(PlayerUpdated::for_key("playbackstatus"), None);
}

#[test]
fn builder_puts_a_player_together() {
    let builder: PlayerBuilder<u32> = PlayerBuilder::new();
    assert!(!builder.is_complete());
    let builder = builder.stream(4);
    assert!(!builder.is_complete());
    let builder = builder.capabilities(&cl_properties("Paused")).unwrap();
    assert!(builder.is_complete());
    let player = builder.build();
    assert_eq!(player.stream.handle, 4);
    assert!(player.stream.is_empty());
    assert_eq!(player.capabilities.playback_status, PlaybackStatus::Paused);

    let only_record: PlayerBuilder<u32> =
        PlayerBuilder::default().capabilities(&cl_properties("Paused")).unwrap();
    assert!(!only_record.is_complete());
}

#[test]
fn builder_turns_down_what_is_no_record() {
    let mut incomplete = cl_properties("Paused");
    incomplete.remove("Metadata");
    let r = PlayerBuilder::<u32>::new().stream(1).capabilities(&incomplete);
    assert_eq!(r.err(), Some(DecodeError::MissingField("Metadata".to_string())));
    assert_eq!(
        Player::new(&incomplete, 1u32).err(),
        Some(DecodeError::MissingField("Metadata".to_string()))
    );
}

#[test]
fn player_new_reads_the_record_and_keeps_the_handle() {
    let mut player = Player::new(&cl_properties("Stopped"), 12u32).unwrap();
    assert_eq!(player.capabilities().playback_status, PlaybackStatus::Stopped);
    assert_eq!(player.stream_mut().handle, 12);
    assert!(player.handle_changed().is_empty());
    player
        .stream_mut()
        .deliver(cl_changed(vec![("Shuffle", Value::Bool(true))]));
    player
        .stream_mut()
        .deliver(cl_changed(vec![("Metadata", cl_track("Looms", None, &[]))]));
    player
        .stream_mut()
        .deliver(cl_changed(vec![("CanGoPrevious", Value::Bool(false))]));
    assert_eq!(player.handle_changed(), vec![Ok(PlayerUpdated::Metadata)]);
    assert_eq!(player.capabilities.shuffle, Some(true));
    assert!(player.capabilities.can_previous);
    assert_eq!(player.handle_changed(), vec![Ok(PlayerUpdated::CanGoPrevious)]);
    assert!(player.handle_changed().is_empty());
}

#[test]
fn signal_stream_hands_out_the_oldest_first() {
    let mut stream: SignalStream<&str, u8> = SignalStream::new("handle");
    assert!(stream.is_empty());
    assert_eq!(stream.poll_next(), None);
    stream.deliver(1);
    stream.deliver(2);
    stream.deliver(3);
    assert!(!stream.is_empty());
    assert_eq!(stream.poll_next(), Some(1));
    stream.deliver(4);
    assert_eq!(stream.poll_next(), Some(2));
    assert_eq!(stream.poll_next(), Some(3));
    assert_eq!(stream.poll_next(), Some(4));
    assert_eq!(stream.poll_next(), None);
    assert_eq!(stream.handle, "handle");
}
