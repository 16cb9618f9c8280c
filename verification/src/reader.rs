//! Platform readers. The multi-peer aggregation engine backs the reader
//! used where players publish over the message bus; a simpler polled reader
//! serves platforms exposing only one active session.

use vstd::prelude::*;

use crate::engine::Engine;
use crate::models::{SongInfo, SongInfoV, opt_str_view};

verus! {

/// Platform-agnostic interface for reading the currently playing media.
pub trait MediaReader: Sized {
    /// A reader that has seen nothing yet.
    fn new() -> Self;

    /// The current canonical snapshot, if any.
    fn get_current_song(&self) -> Option<SongInfo>;
}

/// The bus-driven reader: the caller feeds discovery and signal events into
/// the engine; the current song is the last canonical snapshot emitted.
pub struct LinuxMediaReader {
    pub engine: Engine,
}

impl MediaReader for LinuxMediaReader {
    fn new() -> (r: Self) {
        LinuxMediaReader { engine: Engine::new() }
    }

    fn get_current_song(&self) -> (r: Option<SongInfo>) {
        self.engine.emitter.last_cloned()
    }
}

/// The reader for this platform: players here publish over the message bus.
pub type PlatformMediaReader = LinuxMediaReader;

/// The polled single-session reader: the caller polls the platform session
/// and hands in what it read; artwork is cached keyed by title and
/// re-fetched only when the title changes.
pub struct WindowsMediaReader {
    pub last_title: Option<String>,
    pub last_art: Option<String>,
}

impl WindowsMediaReader {
    /// A reader with an empty artwork cache.
    pub fn new() -> (r: Self)
        ensures
            r.last_title is None,
            r.last_art is None,
    {
        WindowsMediaReader { last_title: None, last_art: None }
    }

    /// Whether the caller must fetch fresh artwork before composing the next
    /// snapshot: exactly when `title` is not the one the cache was built
    /// for.
    pub fn needs_art(&self, title: &str) -> (r: bool)
        ensures
            r == (opt_str_view(self.last_title) != Some(title@)),
    {
        match &self.last_title {
            Some(t) => !crate::text::str_eq(t.as_str(), title),
            None => true,
        }
    }

    /// Compose one polled reading into a snapshot. On a title change the
    /// cache takes `fresh_art` and is re-keyed; otherwise the cached artwork
    /// is reused and `fresh_art` is ignored.
    pub fn compose(
        &mut self,
        title: String,
        artist: String,
        album: String,
        position_secs: u64,
        length_secs: u64,
        is_playing: bool,
        fresh_art: Option<String>,
    ) -> (r: SongInfo)
        ensures
            ({
                let changed = opt_str_view(old(self).last_title) != Some(title@);
                &&& final(self).last_title == Some(title)
                &&& opt_str_view(final(self).last_art) == (if changed {
                    opt_str_view(fresh_art)
                } else {
                    opt_str_view(old(self).last_art)
                })
                &&& r@ == (SongInfoV {
                    title: title@,
                    artist: artist@,
                    album: album@,
                    album_art_base64: opt_str_view(final(self).last_art),
                    position_secs: position_secs,
                    length_secs: length_secs,
                    is_playing: is_playing,
                })
            }),
    {
        if self.needs_art(title.as_str()) {
            self.last_art = fresh_art;
        }
        self.last_title = Some(title.clone());
        let art = match &self.last_art {
            Some(a) => Some(a.clone()),
            None => None,
        };
        SongInfo {
            title,
            artist,
            album,
            album_art_base64: art,
            position_secs,
            length_secs,
            is_playing,
        }
    }
}

} // verus!
