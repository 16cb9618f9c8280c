use now_playing::models::SongInfo;

#[test]
fn song_info_default_has_expected_values() {
    let info = SongInfo::default();

    assert_eq!(info.title, "");
    assert_eq!(info.artist, "");
    assert_eq!(info.album, "");
    assert!(info.album_art_base64.is_none());
    assert_eq!(info.position_secs, 0);
    assert_eq!(info.length_secs, 0);
    assert!(!info.is_playing);
}

#[test]
fn song_info_clone_is_independent() {
    let info = SongInfo {
        title: "Original".to_string(),
        artist: "Artist".to_string(),
        album: "Album".to_string(),
        album_art_base64: Some("abc".to_string()),
        position_secs: 10,
        length_secs: 200,
        is_playing: false,
    };

    let mut cloned = info.clone();

    cloned.title = "Modified".to_string();
    cloned.album_art_base64 = Some("modified".to_string());
    cloned.is_playing = true;

    // original unchanged
    assert_eq!(info.title, "Original");
    assert_eq!(info.album_art_base64, Some("abc".to_string()));
    assert!(!info.is_playing);

    // clone updated
    assert_eq!(cloned.title, "Modified");
    assert_eq!(cloned.album_art_base64, Some("modified".to_string()));
    assert!(cloned.is_playing);
}

#[test]
fn song_info_equality_is_structural() {
    let a = SongInfo {
        title: "T".to_string(),
        artist: "A".to_string(),
        album: "L".to_string(),
        album_art_base64: None,
        position_secs: 1,
        length_secs: 2,
        is_playing: true,
    };
    let b = a.clone();
    assert!(a == b);

    let mut c = a.clone();
    c.position_secs = 3;
    assert!(a != c);

    let mut d = a.clone();
    d.album_art_base64 = Some("x".to_string());
    assert!(a != d);
}
