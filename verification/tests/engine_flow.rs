use now_playing::busval::BusValue;
use now_playing::engine::{Engine, RefreshPlan};
use now_playing::player::{FetchedProps, PlaybackStatus, PlayerState};

fn props(status: &str, position_us: i64, length_us: i64, track: &str, title: &str) -> FetchedProps {
    let dict = vec![
        (
            "mpris:trackid".to_string(),
            BusValue::Wrapped(Box::new(BusValue::ObjectPath(track.to_string()))),
        ),
        ("xesam:title".to_string(), BusValue::Str(title.to_string())),
        ("mpris:length".to_string(), BusValue::I64(length_us)),
    ];
    FetchedProps {
        metadata: Some(BusValue::Dict(dict)),
        playback: Some(BusValue::Str(status.to_string())),
        position: Some(BusValue::I64(position_us)),
    }
}

#[test]
fn scenario_single_peer_lifecycle() {
    let mut eng = Engine::new();

    // discovery finds no players: registry empty, no emission
    assert!(eng.emit_step(0).is_none());
    assert_eq!(eng.registry.len(), 0);

    // a peer appears playing at 10 s of 200 s: exactly one emission
    let p = props("Playing", 10_000_000, 200_000_000, "/track/1", "Song");
    let art = eng.on_owner_changed("org.mpris.MediaPlayer2.p1", "", ":1.42", Some(&p), 1_000_000);
    assert!(art.is_none());
    let out = eng.emit_step(1_000_000).expect("first snapshot must be emitted");
    assert_eq!(out.position_secs, 10);
    assert_eq!(out.length_secs, 200);
    assert!(out.is_playing);

    // an unchanged winner is not emitted again
    assert!(eng.emit_step(1_000_000).is_none());

    // a property change reports Paused: one more emission, same position
    let plan = eng.plan_properties_changed("org.mpris.MediaPlayer2.Player", true, ":1.42");
    match plan {
        RefreshPlan::One(name) => assert_eq!(name, "org.mpris.MediaPlayer2.p1"),
        _ => panic!("a resolvable sender must get a targeted refresh"),
    }
    let p2 = props("Paused", 10_000_000, 200_000_000, "/track/1", "Song");
    eng.apply_refresh("org.mpris.MediaPlayer2.p1", &p2, 1_000_000);
    let out2 = eng.emit_step(1_000_000).expect("the pause must be emitted");
    assert!(!out2.is_playing);
    assert_eq!(out2.position_secs, 10);

    // the peer disappears: registry empties, no further emission
    eng.on_owner_changed("org.mpris.MediaPlayer2.p1", ":1.42", "", None, 2_000_000);
    assert_eq!(eng.registry.len(), 0);
    assert!(eng.emit_step(2_000_000).is_none());
}

#[test]
fn selector_prefers_the_single_playing_player() {
    let mut eng = Engine::new();
    // the paused player was updated much later than the playing one
    eng.apply_refresh(
        "org.mpris.MediaPlayer2.paused",
        &props("Paused", 0, 100_000_000, "/t/1", "PausedSong"),
        100_000_000,
    );
    eng.apply_refresh(
        "org.mpris.MediaPlayer2.playing",
        &props("Playing", 0, 100_000_000, "/t/2", "PlayingSong"),
        50_000_000,
    );
    let out = eng.emit_step(100_000_000).expect("a snapshot must be emitted");
    assert_eq!(out.title, "PlayingSong");
    assert!(out.is_playing);
}

#[test]
fn selector_picks_latest_updated_of_two_playing() {
    let mut eng = Engine::new();
    eng.apply_refresh(
        "org.mpris.MediaPlayer2.older",
        &props("Playing", 0, 100_000_000, "/t/1", "Older"),
        50_000_000,
    );
    eng.apply_refresh(
        "org.mpris.MediaPlayer2.newer",
        &props("Playing", 0, 100_000_000, "/t/2", "Newer"),
        90_000_000,
    );
    let out = eng.emit_step(90_000_000).expect("a snapshot must be emitted");
    assert_eq!(out.title, "Newer");
}

#[test]
fn unresolved_sender_falls_back_to_refreshing_all() {
    let mut eng = Engine::new();
    eng.apply_refresh(
        "org.mpris.MediaPlayer2.a",
        &props("Playing", 0, 1_000_000, "/t/1", "A"),
        0,
    );
    eng.apply_refresh(
        "org.mpris.MediaPlayer2.b",
        &props("Stopped", 0, 1_000_000, "/t/2", "B"),
        0,
    );
    let plan = eng.plan_properties_changed("org.mpris.MediaPlayer2.Player", true, ":9.99");
    match plan {
        RefreshPlan::All(names) => {
            assert_eq!(names.len(), 2);
            assert!(names.contains(&"org.mpris.MediaPlayer2.a".to_string()));
            assert!(names.contains(&"org.mpris.MediaPlayer2.b".to_string()));
        },
        _ => panic!("an unresolved sender must refresh every tracked identity"),
    }
}

#[test]
fn irrelevant_property_changes_are_skipped() {
    let eng = Engine::new();
    assert!(matches!(
        eng.plan_properties_changed("org.mpris.MediaPlayer2.Player", false, ":1.1"),
        RefreshPlan::Skip
    ));
    assert!(matches!(
        eng.plan_properties_changed("org.freedesktop.DBus.Stats", true, ":1.1"),
        RefreshPlan::Skip
    ));
}

#[test]
fn owner_transfer_and_foreign_names_are_ignored() {
    let mut eng = Engine::new();
    let p = props("Playing", 0, 1_000_000, "/t/1", "A");
    // a name outside the player namespace never enters the registry
    eng.on_owner_changed("org.gnome.Shell", "", ":1.5", Some(&p), 0);
    assert_eq!(eng.registry.len(), 0);
    // an owner-to-owner transfer changes nothing
    eng.apply_refresh("org.mpris.MediaPlayer2.a", &p, 0);
    eng.on_owner_changed("org.mpris.MediaPlayer2.a", ":1.1", ":1.2", None, 1);
    assert_eq!(eng.registry.len(), 1);
}

#[test]
fn discovery_seeds_registry_and_resolver() {
    let mut eng = Engine::new();
    let owner = ":1.7".to_string();
    eng.on_discovered(
        "org.mpris.MediaPlayer2.vlc",
        Some(&owner),
        Some(&props("Playing", 3_000_000, 9_000_000, "/t/9", "Seeded")),
        0,
    );
    // a later signal from that owner resolves to a targeted refresh
    let plan = eng.plan_properties_changed("org.mpris.MediaPlayer2.Player", true, ":1.7");
    match plan {
        RefreshPlan::One(name) => assert_eq!(name, "org.mpris.MediaPlayer2.vlc"),
        _ => panic!("discovery must seed the identity resolver"),
    }
    let out = eng.emit_step(0).expect("the seeded player must be emitted");
    assert_eq!(out.title, "Seeded");
    assert_eq!(out.position_secs, 3);
    assert_eq!(out.length_secs, 9);
}

#[test]
fn discovery_failures_are_isolated_per_peer() {
    let mut eng = Engine::new();
    // owner resolution failed: the state is still seeded
    eng.on_discovered(
        "org.mpris.MediaPlayer2.noowner",
        None,
        Some(&props("Paused", 0, 1_000_000, "/t/1", "A")),
        0,
    );
    // state fetch failed: the mapping is still recorded, no entry appears
    let owner = ":1.9".to_string();
    eng.on_discovered("org.mpris.MediaPlayer2.nofetch", Some(&owner), None, 0);

    assert_eq!(eng.registry.len(), 1);
    match eng.plan_properties_changed("org.mpris.MediaPlayer2.Player", true, ":1.9") {
        RefreshPlan::One(name) => assert_eq!(name, "org.mpris.MediaPlayer2.nofetch"),
        _ => panic!("the mapping must survive a failed fetch"),
    }
}

#[test]
fn polling_updates_position_of_tracked_players_only() {
    let mut eng = Engine::new();
    eng.apply_refresh(
        "org.mpris.MediaPlayer2.a",
        &props("Playing", 10_000_000, 300_000_000, "/t/1", "A"),
        0,
    );
    let playing = eng.registry.playing_names();
    assert_eq!(playing, vec!["org.mpris.MediaPlayer2.a".to_string()]);

    // a resync moves the anchor: position jumps to the polled value
    eng.apply_position("org.mpris.MediaPlayer2.a", &BusValue::I64(42_000_000), 5_000_000);
    let out = eng.emit_step(5_000_000).expect("a snapshot must be emitted");
    assert_eq!(out.position_secs, 42);

    // a poll for an unknown name creates no entry
    eng.apply_position("org.mpris.MediaPlayer2.ghost", &BusValue::I64(1), 5_000_000);
    assert_eq!(eng.registry.len(), 1);
}

#[test]
fn stale_art_loads_are_dropped() {
    let mut eng = Engine::new();
    let dict = vec![
        ("mpris:trackid".to_string(), BusValue::Str("A".to_string())),
        (
            "mpris:artUrl".to_string(),
            BusValue::Str("file:///a.png".to_string()),
        ),
    ];
    let p = FetchedProps {
        metadata: Some(BusValue::Dict(dict)),
        playback: Some(BusValue::Str("Playing".to_string())),
        position: Some(BusValue::I64(0)),
    };
    let need = eng.apply_refresh("org.mpris.MediaPlayer2.a", &p, 0);
    assert_eq!(need, Some("file:///a.png".to_string()));

    // bytes loaded for a URL no longer on record are dropped
    eng.store_art("org.mpris.MediaPlayer2.a", "file:///old.png", Some("STALE".to_string()));
    let out = eng.emit_step(0).expect("a snapshot must be emitted");
    assert_eq!(out.album_art_base64, None);

    // bytes for the URL on record are stored and show up in the snapshot
    eng.store_art("org.mpris.MediaPlayer2.a", "file:///a.png", Some("FRESH".to_string()));
    let out2 = eng.emit_step(0).expect("the new artwork must be emitted");
    assert_eq!(out2.album_art_base64, Some("FRESH".to_string()));
}

#[test]
fn extrapolated_position_is_clamped() {
    // length 180 s, anchor at 179 s, playing: 5 s later the derived
    // position is 180, never 184
    let mut st = PlayerState::fresh(0);
    st.status = PlaybackStatus::Playing;
    st.position_us = 179_000_000;
    st.length_us = 180_000_000;
    let info = st.to_song_info(5_000_000);
    assert_eq!(info.position_secs, 180);
    assert_eq!(info.length_secs, 180);
}

#[test]
fn sub_second_lengths_still_bound_the_position() {
    // the clamp works on microseconds: a 0.5 s track bounds the derived
    // position even though both round to zero seconds
    let mut st = PlayerState::fresh(0);
    st.status = PlaybackStatus::Stopped;
    st.position_us = 2_000_000;
    st.length_us = 500_000;
    let info = st.to_song_info(0);
    assert_eq!(info.length_secs, 0);
    assert_eq!(info.position_secs, 0);
}

#[test]
fn empty_fetch_creates_no_entry() {
    let mut eng = Engine::new();
    let empty = FetchedProps { metadata: None, playback: None, position: None };
    eng.apply_refresh("org.mpris.MediaPlayer2.ghost", &empty, 0);
    assert_eq!(eng.registry.len(), 0);
    assert!(eng.emit_step(0).is_none());

    // an appearing peer whose fetch obtained nothing is likewise not seeded
    eng.on_owner_changed("org.mpris.MediaPlayer2.ghost", "", ":1.3", Some(&empty), 0);
    assert_eq!(eng.registry.len(), 0);
}

#[test]
fn paused_position_does_not_advance() {
    let mut st = PlayerState::fresh(0);
    st.status = PlaybackStatus::Paused;
    st.position_us = 30_000_000;
    st.length_us = 180_000_000;
    let info = st.to_song_info(50_000_000);
    assert_eq!(info.position_secs, 30);
    assert!(!info.is_playing);
}

#[test]
fn derived_position_never_goes_negative() {
    let mut st = PlayerState::fresh(0);
    st.status = PlaybackStatus::Stopped;
    st.position_us = -5_000_000;
    st.length_us = 180_000_000;
    let info = st.to_song_info(0);
    assert_eq!(info.position_secs, 0);
}

#[test]
fn two_reads_at_different_times_differ_without_a_write() {
    let mut st = PlayerState::fresh(0);
    st.status = PlaybackStatus::Playing;
    st.position_us = 10_000_000;
    st.length_us = 500_000_000;
    assert_eq!(st.to_song_info(0).position_secs, 10);
    assert_eq!(st.to_song_info(7_000_000).position_secs, 17);
    // the stored anchor is untouched
    assert_eq!(st.position_us, 10_000_000);
}
