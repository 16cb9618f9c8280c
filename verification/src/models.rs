//! Value types shared with the presentation layer: the canonical snapshot
//! and the overlay configuration.

use vstd::prelude::*;

verus! {

/// Mathematical view of a `SongInfo`: every string as a sequence of
/// characters, everything else as a plain value.
pub struct SongInfoV {
    pub title: Seq<char>,
    pub artist: Seq<char>,
    pub album: Seq<char>,
    pub album_art_base64: Option<Seq<char>>,
    pub position_secs: u64,
    pub length_secs: u64,
    pub is_playing: bool,
}

/// View of an optional string as an optional character sequence.
pub open spec fn opt_str_view(o: Option<String>) -> Option<Seq<char>> {
    match o {
        Some(s) => Some(s@),
        None => None,
    }
}

/// The canonical "now playing" snapshot handed to downstream consumers.
/// Structural equality of two snapshots drives emission deduplication.
pub struct SongInfo {
    pub title: String,
    pub artist: String,
    pub album: String,
    pub album_art_base64: Option<String>,
    pub position_secs: u64,
    pub length_secs: u64,
    pub is_playing: bool,
}

impl View for SongInfo {
    type V = SongInfoV;

    open spec fn view(&self) -> SongInfoV {
        SongInfoV {
            title: self.title@,
            artist: self.artist@,
            album: self.album@,
            album_art_base64: opt_str_view(self.album_art_base64),
            position_secs: self.position_secs,
            length_secs: self.length_secs,
            is_playing: self.is_playing,
        }
    }
}

/// Equality of two optional strings, by contents.
pub fn opt_string_eq(a: &Option<String>, b: &Option<String>) -> (r: bool)
    ensures
        r == (opt_str_view(*a) == opt_str_view(*b)),
{
    match (a, b) {
        (Some(x), Some(y)) => crate::text::str_eq(x.as_str(), y.as_str()),
        (None, None) => true,
        _ => false,
    }
}

impl PartialEq for SongInfo {
    fn eq(&self, other: &SongInfo) -> (r: bool) {
        self.title == other.title && self.artist == other.artist && self.album == other.album
            && opt_string_eq(&self.album_art_base64, &other.album_art_base64)
            && self.position_secs == other.position_secs
            && self.length_secs == other.length_secs && self.is_playing == other.is_playing
    }
}

impl vstd::std_specs::cmp::PartialEqSpecImpl for SongInfo {
    open spec fn obeys_eq_spec() -> bool {
        true
    }

    open spec fn eq_spec(&self, other: &SongInfo) -> bool {
        self@ == other@
    }
}

impl Clone for SongInfo {
    fn clone(&self) -> (r: Self)
        ensures
            r@ == self@,
    {
        SongInfo {
            title: self.title.clone(),
            artist: self.artist.clone(),
            album: self.album.clone(),
            album_art_base64: match &self.album_art_base64 {
                Some(s) => Some(s.clone()),
                None => None,
            },
            position_secs: self.position_secs,
            length_secs: self.length_secs,
            is_playing: self.is_playing,
        }
    }
}

impl Default for SongInfo {
    /// An empty snapshot: no text, no artwork, zero times, not playing.
    fn default() -> (r: Self)
        ensures
            r@.title == Seq::<char>::empty(),
            r@.artist == Seq::<char>::empty(),
            r@.album == Seq::<char>::empty(),
            r@.album_art_base64 is None,
            r@.position_secs == 0,
            r@.length_secs == 0,
            !r@.is_playing,
    {
        SongInfo {
            title: String::new(),
            artist: String::new(),
            album: String::new(),
            album_art_base64: None,
            position_secs: 0,
            length_secs: 0,
            is_playing: false,
        }
    }
}

/// Placement of the overlay window on screen.
#[derive(Clone, Copy, PartialEq, Eq, Structural, Debug)]
pub enum OverlayPosition {
    TopLeft,
    TopRight,
    BottomLeft,
    BottomRight,
    Custom(i32, i32),
}

/// Mathematical view of an `OverlayConfig`.
pub struct OverlayConfigV {
    pub theme: Seq<char>,
    pub show_thumbnail: bool,
    pub show_artist: bool,
    pub show_progress: bool,
    pub show_time: bool,
    pub monitor_index: usize,
    pub position: OverlayPosition,
    pub accent_color: Seq<char>,
    pub background_color: Seq<char>,
    pub text_color: Seq<char>,
    pub font_size_px: u32,
    pub border_radius_px: u32,
    pub blur_px: u32,
    pub custom_css: Seq<char>,
    pub transition_animation: Seq<char>,
}

/// Appearance settings for the overlay, persisted by the caller.
pub struct OverlayConfig {
    pub theme: String,
    pub show_thumbnail: bool,
    pub show_artist: bool,
    pub show_progress: bool,
    pub show_time: bool,
    /// 0 selects the primary monitor, 1 the secondary, and so on.
    pub monitor_index: usize,
    pub position: OverlayPosition,
    pub accent_color: String,
    pub background_color: String,
    pub text_color: String,
    pub font_size_px: u32,
    pub border_radius_px: u32,
    pub blur_px: u32,
    pub custom_css: String,
    pub transition_animation: String,
}

impl View for OverlayConfig {
    type V = OverlayConfigV;

    open spec fn view(&self) -> OverlayConfigV {
        OverlayConfigV {
            theme: self.theme@,
            show_thumbnail: self.show_thumbnail,
            show_artist: self.show_artist,
            show_progress: self.show_progress,
            show_time: self.show_time,
            monitor_index: self.monitor_index,
            position: self.position,
            accent_color: self.accent_color@,
            background_color: self.background_color@,
            text_color: self.text_color@,
            font_size_px: self.font_size_px,
            border_radius_px: self.border_radius_px,
            blur_px: self.blur_px,
            custom_css: self.custom_css@,
            transition_animation: self.transition_animation@,
        }
    }
}

impl Clone for OverlayConfig {
    fn clone(&self) -> (r: Self)
        ensures
            r@ == self@,
    {
        OverlayConfig {
            theme: self.theme.clone(),
            show_thumbnail: self.show_thumbnail,
            show_artist: self.show_artist,
            show_progress: self.show_progress,
            show_time: self.show_time,
            monitor_index: self.monitor_index,
            position: self.position,
            accent_color: self.accent_color.clone(),
            background_color: self.background_color.clone(),
            text_color: self.text_color.clone(),
            font_size_px: self.font_size_px,
            border_radius_px: self.border_radius_px,
            blur_px: self.blur_px,
            custom_css: self.custom_css.clone(),
            transition_animation: self.transition_animation.clone(),
        }
    }
}

/// The stock appearance used when no configuration has been saved.
pub open spec fn spec_default_config() -> OverlayConfigV {
    OverlayConfigV {
        theme: "frosted_glass"@,
        show_thumbnail: true,
        show_artist: true,
        show_progress: true,
        show_time: true,
        monitor_index: 0,
        position: OverlayPosition::BottomRight,
        accent_color: "#3498db"@,
        background_color: "#1a1a2e"@,
        text_color: "#ffffff"@,
        font_size_px: 14,
        border_radius_px: 14,
        blur_px: 18,
        custom_css: Seq::<char>::empty(),
        transition_animation: "slide_up"@,
    }
}

impl Default for OverlayConfig {
    /// The stock appearance used when no configuration has been saved.
    fn default() -> (r: Self)
        ensures
            r@ == spec_default_config(),
    {
        OverlayConfig {
            theme: "frosted_glass".to_owned(),
            show_thumbnail: true,
            show_artist: true,
            show_progress: true,
            show_time: true,
            monitor_index: 0,
            position: OverlayPosition::BottomRight,
            accent_color: "#3498db".to_owned(),
            background_color: "#1a1a2e".to_owned(),
            text_color: "#ffffff".to_owned(),
            font_size_px: 14,
            border_radius_px: 14,
            blur_px: 18,
            custom_css: String::new(),
            transition_animation: "slide_up".to_owned(),
        }
    }
}

} // verus!
