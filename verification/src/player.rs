//! Per-player state: playback status, tracked metadata, and the
//! position-extrapolation formula used when a snapshot is taken.

use vstd::prelude::*;

use crate::busval::{
    BusValue, dict_i64, dict_string, dict_string_list, spec_dict_i64, spec_dict_string,
    spec_dict_string_list, spec_unwrap, spec_value_i64, spec_value_str, unwrap_variant,
    value_to_i64, value_to_string,
};
use crate::models::{SongInfo, SongInfoV, opt_str_view};
use crate::text::{join_comma, spec_join_comma, str_eq};

verus! {

/// Playback status reported by a player.
#[derive(Clone, Copy, PartialEq, Eq, Structural, Debug)]
pub enum PlaybackStatus {
    Playing,
    Paused,
    Stopped,
}

/// Meaning of a reported playback-status string: any string other than the
/// two recognized ones maps to `Stopped`.
pub open spec fn spec_parse_status(s: Seq<char>) -> PlaybackStatus {
    if s == "Playing"@ {
        PlaybackStatus::Playing
    } else if s == "Paused"@ {
        PlaybackStatus::Paused
    } else {
        PlaybackStatus::Stopped
    }
}

impl PlaybackStatus {
    /// Decode a reported playback-status string.
    pub fn parse(s: &str) -> (r: Self)
        ensures
            r == spec_parse_status(s@),
    {
        if str_eq(s, "Playing") {
            PlaybackStatus::Playing
        } else if str_eq(s, "Paused") {
            PlaybackStatus::Paused
        } else {
            PlaybackStatus::Stopped
        }
    }
}

/// Mathematical view of a `PlayerState`.
pub struct PlayerStateV {
    pub track_id: Option<Seq<char>>,
    pub title: Seq<char>,
    pub artist: Seq<char>,
    pub album: Seq<char>,
    pub art_url: Option<Seq<char>>,
    pub art_base64: Option<Seq<char>>,
    pub length_us: i64,
    pub position_us: i64,
    pub status: PlaybackStatus,
    pub updated_at: i64,
}

/// Everything tracked for one player identity. `position_us` is an anchor:
/// the live position is derived from it and the time elapsed since
/// `updated_at` (a monotonic-clock reading in microseconds) while playing.
pub struct PlayerState {
    pub track_id: Option<String>,
    pub title: String,
    pub artist: String,
    pub album: String,
    pub art_url: Option<String>,
    pub art_base64: Option<String>,
    pub length_us: i64,
    pub position_us: i64,
    pub status: PlaybackStatus,
    pub updated_at: i64,
}

impl View for PlayerState {
    type V = PlayerStateV;

    open spec fn view(&self) -> PlayerStateV {
        PlayerStateV {
            track_id: opt_str_view(self.track_id),
            title: self.title@,
            artist: self.artist@,
            album: self.album@,
            art_url: opt_str_view(self.art_url),
            art_base64: opt_str_view(self.art_base64),
            length_us: self.length_us,
            position_us: self.position_us,
            status: self.status,
            updated_at: self.updated_at,
        }
    }
}

/// The state a player starts from before anything has been fetched for it,
/// anchored at the given monotonic time.
pub open spec fn spec_fresh_state(now_us: i64) -> PlayerStateV {
    PlayerStateV {
        track_id: None,
        title: "Unknown Title"@,
        artist: "Unknown Artist"@,
        album: Seq::<char>::empty(),
        art_url: None,
        art_base64: None,
        length_us: 0,
        position_us: 0,
        status: PlaybackStatus::Stopped,
        updated_at: now_us,
    }
}

impl PlayerState {
    /// A player about which nothing is known yet, anchored at `now_us`.
    pub fn fresh(now_us: i64) -> (r: Self)
        ensures
            r@ == spec_fresh_state(now_us),
    {
        PlayerState {
            track_id: None,
            title: "Unknown Title".to_owned(),
            artist: "Unknown Artist".to_owned(),
            album: String::new(),
            art_url: None,
            art_base64: None,
            length_us: 0,
            position_us: 0,
            status: PlaybackStatus::Stopped,
            updated_at: now_us,
        }
    }
}

impl Default for PlayerState {
    /// Like `fresh`, anchored at time zero.
    fn default() -> (r: Self)
        ensures
            r@ == spec_fresh_state(0),
    {
        PlayerState::fresh(0)
    }
}

impl Clone for PlayerState {
    fn clone(&self) -> (r: Self)
        ensures
            r@ == self@,
    {
        PlayerState {
            track_id: match &self.track_id {
                Some(s) => Some(s.clone()),
                None => None,
            },
            title: self.title.clone(),
            artist: self.artist.clone(),
            album: self.album.clone(),
            art_url: match &self.art_url {
                Some(s) => Some(s.clone()),
                None => None,
            },
            art_base64: match &self.art_base64 {
                Some(s) => Some(s.clone()),
                None => None,
            },
            length_us: self.length_us,
            position_us: self.position_us,
            status: self.status,
            updated_at: self.updated_at,
        }
    }
}

/// Microseconds elapsed since the position anchor while playing; zero when
/// not playing. A monotonic clock never runs backwards, so a reading older
/// than the anchor counts as no elapsed time.
pub open spec fn spec_elapsed_us(st: PlayerStateV, now_us: i64) -> int {
    if st.status == PlaybackStatus::Playing && now_us >= st.updated_at {
        now_us - st.updated_at
    } else {
        0
    }
}

/// Track length in whole seconds; a non-positive reported length counts as
/// unknown and yields zero.
pub open spec fn spec_length_secs(st: PlayerStateV) -> int {
    if st.length_us > 0 {
        st.length_us / 1_000_000
    } else {
        0
    }
}

/// The derived position in microseconds: the anchor plus elapsed time,
/// clamped below at zero and, for any known (positive) length, above at the
/// length — the clamp happens before any conversion to seconds, so even a
/// sub-second length bounds the derived position.
pub open spec fn spec_position_us_clamped(st: PlayerStateV, now_us: i64) -> int {
    let raw = st.position_us + spec_elapsed_us(st, now_us);
    if raw < 0 {
        0
    } else if st.length_us > 0 && raw > st.length_us {
        st.length_us as int
    } else {
        raw
    }
}

/// The derived position in whole seconds.
pub open spec fn spec_position_secs(st: PlayerStateV, now_us: i64) -> int {
    spec_position_us_clamped(st, now_us) / 1_000_000
}

/// The derived position is clamped on read and nothing clamped is ever
/// stored: whatever the anchor and the elapsed time, it is never negative,
/// and whenever a positive length is known it never exceeds that length.
pub proof fn lemma_position_clamped(st: PlayerStateV, now_us: i64)
    ensures
        spec_position_secs(st, now_us) >= 0,
        st.length_us > 0 ==> spec_position_us_clamped(st, now_us) <= st.length_us,
        st.length_us > 0 ==> spec_position_secs(st, now_us) <= spec_length_secs(st),
{
}

/// The snapshot derived from a player state at a monotonic time: display
/// fields copied, position extrapolated and clamped.
pub open spec fn spec_song_of(st: PlayerStateV, now_us: i64) -> SongInfoV {
    SongInfoV {
        title: st.title,
        artist: st.artist,
        album: st.album,
        album_art_base64: st.art_base64,
        position_secs: spec_position_secs(st, now_us) as u64,
        length_secs: spec_length_secs(st) as u64,
        is_playing: st.status == PlaybackStatus::Playing,
    }
}

impl PlayerState {
    /// Derive the canonical snapshot for this player at monotonic time
    /// `now_us`. Reading twice at different times yields different derived
    /// positions without any write to the state.
    pub fn to_song_info(&self, now_us: i64) -> (r: SongInfo)
        ensures
            r@ == spec_song_of(self@, now_us),
            r@.position_secs == spec_position_secs(self@, now_us),
            r@.length_secs == spec_length_secs(self@),
    {
        let is_playing = matches!(self.status, PlaybackStatus::Playing);

        let elapsed_us: i128 = if is_playing && now_us >= self.updated_at {
            now_us as i128 - self.updated_at as i128
        } else {
            0
        };

        let length_secs: u64 = if self.length_us > 0 {
            (self.length_us as u64) / 1_000_000
        } else {
            0
        };

        let raw: i128 = self.position_us as i128 + elapsed_us;
        let clamped: i128 = if raw < 0 {
            0
        } else if self.length_us > 0 && raw > self.length_us as i128 {
            self.length_us as i128
        } else {
            raw
        };
        let position_secs: u64 = ((clamped / 1_000_000) as u64);

        SongInfo {
            title: self.title.clone(),
            artist: self.artist.clone(),
            album: self.album.clone(),
            album_art_base64: match &self.art_base64 {
                Some(s) => Some(s.clone()),
                None => None,
            },
            position_secs,
            length_secs,
            is_playing,
        }
    }
}

/// Track-change invalidation: when the dictionary names a track other than
/// the one on record, the cached art URL and art bytes are cleared before
/// anything else is applied, so a new track never inherits stale artwork.
pub open spec fn spec_track_applied(d: Seq<(String, BusValue)>, st: PlayerStateV) -> PlayerStateV {
    match spec_dict_string(d, "mpris:trackid"@) {
        Some(id) => {
            if st.track_id == Some(id) {
                PlayerStateV { track_id: Some(id), ..st }
            } else {
                PlayerStateV { track_id: Some(id), art_url: None, art_base64: None, ..st }
            }
        },
        None => st,
    }
}

/// The state after the textual and length fields of the dictionary are
/// applied: each field present in the dictionary replaces the one on record;
/// absent or malformed fields leave the record unchanged.
pub open spec fn spec_texts_applied(d: Seq<(String, BusValue)>, st: PlayerStateV) -> PlayerStateV {
    let st1 = spec_track_applied(d, st);
    let st2 = match spec_dict_string(d, "xesam:title"@) {
        Some(t) => PlayerStateV { title: t, ..st1 },
        None => st1,
    };
    let st3 = match spec_dict_string_list(d, "xesam:artist"@) {
        Some(items) => PlayerStateV { artist: spec_join_comma(items), ..st2 },
        None => st2,
    };
    let st4 = match spec_dict_string(d, "xesam:album"@) {
        Some(a) => PlayerStateV { album: a, ..st3 },
        None => st3,
    };
    match spec_dict_i64(d, "mpris:length"@) {
        Some(l) => PlayerStateV { length_us: l, ..st4 },
        None => st4,
    }
}

/// The art URL whose bytes must be loaded after this dictionary is applied:
/// the URL named by the dictionary exactly when it differs from the one then
/// on record (track-change invalidation included).
pub open spec fn spec_meta_art_request(d: Seq<(String, BusValue)>, st: PlayerStateV) -> Option<
    Seq<char>,
> {
    match spec_dict_string(d, "mpris:artUrl"@) {
        Some(url) => {
            if spec_texts_applied(d, st).art_url == Some(url) {
                None
            } else {
                Some(url)
            }
        },
        None => None,
    }
}

/// The state after a whole metadata dictionary is applied. A changed art URL
/// is recorded with the cached bytes cleared; the bytes arrive later through
/// `store_art` once the caller has loaded them.
pub open spec fn spec_apply_meta(d: Seq<(String, BusValue)>, st: PlayerStateV) -> PlayerStateV {
    let st1 = spec_texts_applied(d, st);
    match spec_dict_string(d, "mpris:artUrl"@) {
        Some(url) => {
            if st1.art_url == Some(url) {
                st1
            } else {
                PlayerStateV { art_url: Some(url), art_base64: None, ..st1 }
            }
        },
        None => st1,
    }
}

/// Apply a metadata dictionary to a player state. Returns the art URL whose
/// bytes the caller should load, if the URL on record changed.
pub fn parse_metadata_dict(d: &Vec<(String, BusValue)>, state: &mut PlayerState) -> (need_art:
    Option<String>)
    ensures
        final(state)@ == spec_apply_meta(d@, old(state)@),
        opt_str_view(need_art) == spec_meta_art_request(d@, old(state)@),
{
    match dict_string(d, "mpris:trackid") {
        Some(id) => {
            let same = match &state.track_id {
                Some(t) => str_eq(t.as_str(), id.as_str()),
                None => false,
            };
            if !same {
                state.art_url = None;
                state.art_base64 = None;
            }
            state.track_id = Some(id);
        },
        None => {},
    }
    match dict_string(d, "xesam:title") {
        Some(t) => {
            state.title = t;
        },
        None => {},
    }
    match dict_string_list(d, "xesam:artist") {
        Some(items) => {
            state.artist = join_comma(&items);
        },
        None => {},
    }
    match dict_string(d, "xesam:album") {
        Some(a) => {
            state.album = a;
        },
        None => {},
    }
    match dict_i64(d, "mpris:length") {
        Some(l) => {
            state.length_us = l;
        },
        None => {},
    }
    match dict_string(d, "mpris:artUrl") {
        Some(url) => {
            let same = match &state.art_url {
                Some(u) => str_eq(u.as_str(), url.as_str()),
                None => false,
            };
            if !same {
                state.art_url = Some(url.clone());
                state.art_base64 = None;
                Some(url)
            } else {
                None
            }
        },
        None => None,
    }
}

/// Apply a metadata payload of any shape: a dictionary (behind any number of
/// envelopes) is applied; anything else leaves the state unchanged.
pub fn apply_metadata(val: &BusValue, state: &mut PlayerState) -> (need_art: Option<String>)
    ensures
        match spec_unwrap(*val) {
            BusValue::Dict(d) => final(state)@ == spec_apply_meta(d@, old(state)@) && opt_str_view(
                need_art,
            ) == spec_meta_art_request(d@, old(state)@),
            _ => final(state)@ == old(state)@ && need_art is None,
        },
{
    let inner = unwrap_variant(val);
    match inner {
        BusValue::Dict(d) => parse_metadata_dict(d, state),
        _ => None,
    }
}

/// The three independently optional properties of a full state fetch.
pub struct FetchedProps {
    pub metadata: Option<BusValue>,
    pub playback: Option<BusValue>,
    pub position: Option<BusValue>,
}

/// A fetch that obtained none of the three properties: it carries nothing to
/// apply, and does not count as a successful state fetch.
pub open spec fn spec_props_empty(f: FetchedProps) -> bool {
    f.metadata is None && f.playback is None && f.position is None
}

/// The state after an optional playback-status payload is applied.
pub open spec fn spec_apply_playback(v: Option<BusValue>, st: PlayerStateV) -> PlayerStateV {
    match v {
        Some(pv) => match spec_value_str(pv) {
            Some(s) => PlayerStateV { status: spec_parse_status(s), ..st },
            None => st,
        },
        None => st,
    }
}

/// The state after an optional position payload is applied: a fresh anchor
/// is recorded at the current monotonic time.
pub open spec fn spec_apply_position(v: Option<BusValue>, st: PlayerStateV, now_us: i64) -> PlayerStateV {
    match v {
        Some(pv) => match spec_value_i64(pv) {
            Some(p) => PlayerStateV { position_us: p, updated_at: now_us, ..st },
            None => st,
        },
        None => st,
    }
}

/// The state after a whole fetch is applied: metadata, then playback status,
/// then position anchor. Each part is optional; whatever is absent or
/// malformed leaves the corresponding fields unchanged.
pub open spec fn spec_apply_fetched(f: FetchedProps, st: PlayerStateV, now_us: i64) -> PlayerStateV {
    let st1 = match f.metadata {
        Some(v) => match spec_unwrap(v) {
            BusValue::Dict(d) => spec_apply_meta(d@, st),
            _ => st,
        },
        None => st,
    };
    let st2 = spec_apply_playback(f.playback, st1);
    spec_apply_position(f.position, st2, now_us)
}

/// The art URL a fetch application asks the caller to load, if any.
pub open spec fn spec_fetched_art_request(f: FetchedProps, st: PlayerStateV) -> Option<Seq<char>> {
    match f.metadata {
        Some(v) => match spec_unwrap(v) {
            BusValue::Dict(d) => spec_meta_art_request(d@, st),
            _ => None,
        },
        None => None,
    }
}

/// The art cache is tied to an art URL on record: a state never holds
/// artwork bytes without the URL they were loaded for.
pub open spec fn art_consistent(st: PlayerStateV) -> bool {
    st.art_base64 is Some ==> st.art_url is Some
}

/// Applying a metadata dictionary keeps the art cache consistent: a track
/// change or URL change clears the cached bytes along with (or ahead of) the
/// URL, never the other way around.
pub proof fn lemma_meta_keeps_art_consistent(d: Seq<(String, BusValue)>, st: PlayerStateV)
    requires
        art_consistent(st),
    ensures
        art_consistent(spec_apply_meta(d, st)),
{
}

/// Applying a whole fetch keeps the art cache consistent: playback and
/// position payloads never touch the art fields.
pub proof fn lemma_fetch_keeps_art_consistent(f: FetchedProps, st: PlayerStateV, now_us: i64)
    requires
        art_consistent(st),
    ensures
        art_consistent(spec_apply_fetched(f, st, now_us)),
{
    match f.metadata {
        Some(v) => match spec_unwrap(v) {
            BusValue::Dict(d) => lemma_meta_keeps_art_consistent(d@, st),
            _ => {},
        },
        None => {},
    }
}

/// Apply a full state fetch to a player state at monotonic time `now_us`.
/// Returns the art URL whose bytes the caller should load, if any.
pub fn apply_fetched(state: &mut PlayerState, props: &FetchedProps, now_us: i64) -> (need_art:
    Option<String>)
    ensures
        final(state)@ == spec_apply_fetched(*props, old(state)@, now_us),
        opt_str_view(need_art) == spec_fetched_art_request(*props, old(state)@),
{
    let need_art = match &props.metadata {
        Some(v) => apply_metadata(v, state),
        None => None,
    };
    match &props.playback {
        Some(v) => {
            match value_to_string(v) {
                Some(s) => {
                    state.status = PlaybackStatus::parse(s.as_str());
                },
                None => {},
            }
        },
        None => {},
    }
    match &props.position {
        Some(v) => {
            match value_to_i64(v) {
                Some(p) => {
                    state.position_us = p;
                    state.updated_at = now_us;
                },
                None => {},
            }
        },
        None => {},
    }
    need_art
}

} // verus!
