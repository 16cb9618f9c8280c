//! A verified media-session aggregation engine.
//!
//! The library reconciles state published by independent local media players
//! over a message bus into one canonical "now playing" snapshot: it tracks a
//! registry of per-player states, resolves transient connection ids to stable
//! player identities, decodes loosely-typed bus payload values, selects the
//! canonical player, extrapolates the playback position at read time, and
//! deduplicates emissions. All bus and file I/O lives outside this crate; the
//! library works on plain values handed in by the caller.

pub mod art;
pub mod busval;
pub mod config;
pub mod engine;
pub mod identity;
pub mod laws;
pub mod models;
pub mod player;
pub mod reader;
pub mod registry;
pub mod text;
pub mod tray;
