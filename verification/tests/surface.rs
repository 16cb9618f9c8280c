use now_playing::art::{art_path_from_url, encode_art};
use now_playing::busval::BusValue;
use now_playing::config::ConfigManager;
use now_playing::engine::owner_change_needs_fetch;
use now_playing::models::{OverlayConfig, OverlayPosition};
use now_playing::player::FetchedProps;
use now_playing::reader::{LinuxMediaReader, MediaReader, PlatformMediaReader, WindowsMediaReader};
use now_playing::tray::{TrayCommand, handle_menu_event};

#[test]
fn windows_reader_can_be_constructed() {
    let reader = WindowsMediaReader::new();
    let _ = reader;
}

#[test]
fn platform_media_reader_implements_trait() {
    fn assert_media_reader<T: MediaReader>() {}
    assert_media_reader::<PlatformMediaReader>();
}

#[test]
fn windows_reader_refetches_art_only_on_title_change() {
    let mut reader = WindowsMediaReader::new();
    assert!(reader.needs_art("First"));
    let a = reader.compose(
        "First".to_string(),
        "Artist".to_string(),
        "Album".to_string(),
        1,
        2,
        true,
        Some("ART1".to_string()),
    );
    assert_eq!(a.album_art_base64, Some("ART1".to_string()));

    // same title: the cache is reused, fresh art is ignored
    assert!(!reader.needs_art("First"));
    let b = reader.compose(
        "First".to_string(),
        "Artist".to_string(),
        "Album".to_string(),
        5,
        2,
        true,
        Some("IGNORED".to_string()),
    );
    assert_eq!(b.album_art_base64, Some("ART1".to_string()));

    // new title: the cache is rebuilt
    assert!(reader.needs_art("Second"));
    let c = reader.compose(
        "Second".to_string(),
        "Artist".to_string(),
        "Album".to_string(),
        0,
        2,
        false,
        None,
    );
    assert_eq!(c.album_art_base64, None);
}

#[test]
fn bus_reader_reports_last_emitted_snapshot() {
    let mut reader = LinuxMediaReader::new();
    assert!(reader.get_current_song().is_none());

    let p = FetchedProps {
        metadata: None,
        playback: Some(BusValue::Str("Playing".to_string())),
        position: Some(BusValue::I64(4_000_000)),
    };
    reader.engine.apply_refresh("org.mpris.MediaPlayer2.x", &p, 0);
    let emitted = reader.engine.emit_step(0).expect("a snapshot must be emitted");
    let current = reader.get_current_song().expect("the emitted snapshot is current");
    assert!(current == emitted);
    assert_eq!(current.position_secs, 4);
}

#[test]
fn config_manager_starts_from_stock_and_applies_updates() {
    let mut mgr = ConfigManager::new();
    let cfg = mgr.get_config();
    assert_eq!(cfg.theme, "frosted_glass");
    assert_eq!(cfg.monitor_index, 0);
    assert!(matches!(cfg.position, OverlayPosition::BottomRight));
    assert_eq!(cfg.accent_color, "#3498db");
    assert_eq!(cfg.background_color, "#1a1a2e");
    assert_eq!(cfg.text_color, "#ffffff");
    assert_eq!(cfg.font_size_px, 14);
    assert_eq!(cfg.border_radius_px, 14);
    assert_eq!(cfg.blur_px, 18);
    assert_eq!(cfg.custom_css, "");
    assert_eq!(cfg.transition_animation, "slide_up");
    assert!(cfg.show_thumbnail && cfg.show_artist && cfg.show_progress && cfg.show_time);

    let mut newer = OverlayConfig::default();
    newer.theme = "midnight".to_string();
    newer.font_size_px = 20;
    newer.position = OverlayPosition::Custom(10, -4);
    mgr.update_config(newer);
    let roundtrip = mgr.get_config();
    assert_eq!(roundtrip.theme, "midnight");
    assert_eq!(roundtrip.font_size_px, 20);
    assert!(matches!(roundtrip.position, OverlayPosition::Custom(10, -4)));
}

#[test]
fn menu_ids_decode_to_commands() {
    assert_eq!(handle_menu_event("open_browser"), Some(TrayCommand::OpenBrowser));
    assert_eq!(handle_menu_event("quit"), Some(TrayCommand::Quit));
    assert_eq!(handle_menu_event("unknown"), None);
    assert_eq!(handle_menu_event(""), None);
}

#[test]
fn art_encoding_matches_known_values() {
    assert_eq!(encode_art(&b"test".to_vec()), "dGVzdA==");
    assert_eq!(encode_art(&b"".to_vec()), "");
    assert_eq!(encode_art(&vec![0xbe, 0xef]), "vu8=");
}

#[test]
fn only_file_urls_resolve_to_paths() {
    assert_eq!(
        art_path_from_url("file:///home/u/cover.png"),
        Some("/home/u/cover.png".to_string())
    );
    assert_eq!(art_path_from_url("https://example.org/c.png"), None);
    assert_eq!(art_path_from_url(""), None);
}

#[test]
fn fetch_decision_matches_owner_transitions() {
    assert!(owner_change_needs_fetch("org.mpris.MediaPlayer2.a", "", ":1.2"));
    assert!(!owner_change_needs_fetch("org.mpris.MediaPlayer2.a", ":1.1", ""));
    assert!(!owner_change_needs_fetch("org.mpris.MediaPlayer2.a", ":1.1", ":1.2"));
    assert!(!owner_change_needs_fetch("org.gnome.Shell", "", ":1.2"));
}
