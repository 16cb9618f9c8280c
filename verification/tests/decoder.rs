use now_playing::busval::{BusValue, dict_string, dict_string_list, value_to_i64, value_to_string};
use now_playing::player::{PlaybackStatus, PlayerState, parse_metadata_dict};
use now_playing::text::{join_comma, str_starts_with, strip_prefix_str};

fn entry(key: &str, v: BusValue) -> (String, BusValue) {
    (key.to_string(), v)
}

#[test]
fn nested_variant_envelopes_are_stripped() {
    let v = BusValue::Wrapped(Box::new(BusValue::Wrapped(Box::new(BusValue::U32(7)))));
    assert_eq!(value_to_i64(&v), Some(7));

    let s = BusValue::Wrapped(Box::new(BusValue::Str("hello".to_string())));
    assert_eq!(value_to_string(&s), Some("hello".to_string()));
}

#[test]
fn object_paths_coerce_to_strings() {
    let v = BusValue::ObjectPath("/org/mpris/track/1".to_string());
    assert_eq!(value_to_string(&v), Some("/org/mpris/track/1".to_string()));
}

#[test]
fn integer_widths_all_coerce() {
    assert_eq!(value_to_i64(&BusValue::I64(-5)), Some(-5));
    assert_eq!(value_to_i64(&BusValue::I32(-5)), Some(-5));
    assert_eq!(value_to_i64(&BusValue::U32(5)), Some(5));
    assert_eq!(value_to_i64(&BusValue::U64(5)), Some(5));
    // a u64 above the signed maximum wraps as a narrowing cast does
    assert_eq!(value_to_i64(&BusValue::U64(u64::MAX)), Some(-1));
    assert_eq!(value_to_i64(&BusValue::Str("7".to_string())), None);
}

#[test]
fn artist_list_and_single_string_both_normalize() {
    let list = vec![entry(
        "xesam:artist",
        BusValue::Array(vec![
            BusValue::Str("A".to_string()),
            BusValue::Str("B".to_string()),
        ]),
    )];
    assert_eq!(
        dict_string_list(&list, "xesam:artist"),
        Some(vec!["A".to_string(), "B".to_string()])
    );

    let single = vec![entry("xesam:artist", BusValue::Str("Solo".to_string()))];
    assert_eq!(
        dict_string_list(&single, "xesam:artist"),
        Some(vec!["Solo".to_string()])
    );

    let empty = vec![entry("xesam:artist", BusValue::Array(vec![]))];
    assert_eq!(dict_string_list(&empty, "xesam:artist"), None);
}

#[test]
fn dict_lookup_finds_first_binding() {
    let d = vec![
        entry("xesam:title", BusValue::Str("Song".to_string())),
        entry("other", BusValue::I64(1)),
    ];
    assert_eq!(dict_string(&d, "xesam:title"), Some("Song".to_string()));
    assert_eq!(dict_string(&d, "missing"), None);
}

#[test]
fn playback_status_strings_parse() {
    assert_eq!(PlaybackStatus::parse("Playing"), PlaybackStatus::Playing);
    assert_eq!(PlaybackStatus::parse("Paused"), PlaybackStatus::Paused);
    assert_eq!(PlaybackStatus::parse("Stopped"), PlaybackStatus::Stopped);
    // any unrecognized string maps to Stopped
    assert_eq!(PlaybackStatus::parse("Buffering"), PlaybackStatus::Stopped);
    assert_eq!(PlaybackStatus::parse(""), PlaybackStatus::Stopped);
}

#[test]
fn metadata_updates_only_present_fields() {
    let mut st = PlayerState::fresh(0);
    st.title = "Old".to_string();
    st.album = "Keep".to_string();
    let d = vec![
        entry("xesam:title", BusValue::Str("New".to_string())),
        entry("mpris:length", BusValue::I64(200_000_000)),
    ];
    let need = parse_metadata_dict(&d, &mut st);
    assert_eq!(need, None);
    assert_eq!(st.title, "New");
    assert_eq!(st.album, "Keep");
    assert_eq!(st.length_us, 200_000_000);
}

#[test]
fn metadata_joins_artists_with_commas() {
    let mut st = PlayerState::fresh(0);
    let d = vec![entry(
        "xesam:artist",
        BusValue::Array(vec![
            BusValue::Str("A".to_string()),
            BusValue::Str("B".to_string()),
            BusValue::Str("C".to_string()),
        ]),
    )];
    parse_metadata_dict(&d, &mut st);
    assert_eq!(st.artist, "A, B, C");
}

#[test]
fn new_track_with_same_art_url_reloads_cache() {
    let mut st = PlayerState::fresh(0);
    st.track_id = Some("A".to_string());
    st.art_url = Some("file:///x.png".to_string());
    st.art_base64 = Some("cached".to_string());

    let d = vec![
        entry("mpris:trackid", BusValue::Str("B".to_string())),
        entry("mpris:artUrl", BusValue::Str("file:///x.png".to_string())),
    ];
    let need = parse_metadata_dict(&d, &mut st);

    // same URL, new track: the cache is cleared and a reload is requested
    assert_eq!(need, Some("file:///x.png".to_string()));
    assert_eq!(st.art_base64, None);
    assert_eq!(st.art_url, Some("file:///x.png".to_string()));
    assert_eq!(st.track_id, Some("B".to_string()));
}

#[test]
fn unchanged_art_url_keeps_cache() {
    let mut st = PlayerState::fresh(0);
    st.track_id = Some("A".to_string());
    st.art_url = Some("file:///x.png".to_string());
    st.art_base64 = Some("cached".to_string());

    let d = vec![
        entry("mpris:trackid", BusValue::Str("A".to_string())),
        entry("mpris:artUrl", BusValue::Str("file:///x.png".to_string())),
    ];
    let need = parse_metadata_dict(&d, &mut st);

    assert_eq!(need, None);
    assert_eq!(st.art_base64, Some("cached".to_string()));
}

#[test]
fn join_comma_shapes() {
    assert_eq!(join_comma(&vec![]), "");
    assert_eq!(join_comma(&vec!["one".to_string()]), "one");
    assert_eq!(
        join_comma(&vec!["a".to_string(), "b".to_string(), "c".to_string()]),
        "a, b, c"
    );
}

#[test]
fn prefix_helpers() {
    assert!(str_starts_with("org.mpris.MediaPlayer2.vlc", "org.mpris.MediaPlayer2."));
    assert!(!str_starts_with("org.freedesktop.DBus", "org.mpris.MediaPlayer2."));
    assert!(!str_starts_with("org", "org.mpris.MediaPlayer2."));
    assert_eq!(
        strip_prefix_str("file:///x.png", "file://"),
        Some("/x.png".to_string())
    );
    assert_eq!(strip_prefix_str("https://x.png", "file://"), None);
}
