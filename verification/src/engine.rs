//! The aggregation engine: registry, identity resolver and dedup emitter
//! behind one ownership boundary, with a transition per observed bus event.
//! The caller performs the bus calls and hands their results in as plain
//! values; every decision and every state change is made here.

use vstd::prelude::*;

use crate::busval::{BusValue, spec_value_i64, value_to_i64};
use crate::identity::{IdentityMap, spec_name_for, spec_owner_has};
use crate::models::{SongInfo, SongInfoV, opt_str_view};
use crate::player::{
    FetchedProps, PlayerState, PlayerStateV, apply_fetched, spec_apply_fetched,
    spec_fetched_art_request, spec_fresh_state, spec_props_empty, spec_song_of,
};
use crate::registry::{
    Registry, reg_names, spec_all_names, spec_best_index, spec_has, spec_state_of,
};
use crate::text::{spec_starts_with, str_eq, str_starts_with, strs_view};

verus! {

/// View of an optional snapshot.
pub open spec fn opt_song_view(o: Option<SongInfo>) -> Option<SongInfoV> {
    match o {
        Some(s) => Some(s@),
        None => None,
    }
}

/// What one offer does to the dedup slot: `(slot afterwards, emission)`.
/// A snapshot equal to the slot's content is swallowed; anything else, the
/// very first included, is emitted and remembered.
pub open spec fn spec_offer(last: Option<SongInfoV>, v: SongInfoV) -> (
    Option<SongInfoV>,
    Option<SongInfoV>,
) {
    if last == Some(v) {
        (last, None)
    } else {
        (Some(v), Some(v))
    }
}

/// The change-deduplicated emitter: a single-slot memory of the last
/// emitted snapshot, empty at start.
pub struct Emitter {
    last: Option<SongInfo>,
}

impl View for Emitter {
    type V = Option<SongInfoV>;

    closed spec fn view(&self) -> Option<SongInfoV> {
        opt_song_view(self.last)
    }
}

impl Emitter {
    /// An emitter that has emitted nothing yet.
    pub fn new() -> (r: Self)
        ensures
            r@ is None,
    {
        Emitter { last: None }
    }

    /// Offer a freshly computed snapshot: it comes back for sending exactly
    /// when it differs from the last emitted one, and is then remembered.
    pub fn offer(&mut self, info: SongInfo) -> (emitted: Option<SongInfo>)
        ensures
            final(self)@ == spec_offer(old(self)@, info@).0,
            opt_song_view(emitted) == spec_offer(old(self)@, info@).1,
    {
        let dup = match &self.last {
            Some(prev) => prev.eq(&info),
            None => false,
        };
        if dup {
            None
        } else {
            let out = info.clone();
            self.last = Some(info);
            Some(out)
        }
    }

    /// A copy of the last emitted snapshot, if any.
    pub fn last_cloned(&self) -> (r: Option<SongInfo>)
        ensures
            opt_song_view(r) == self@,
    {
        match &self.last {
            Some(s) => Some(s.clone()),
            None => None,
        }
    }
}

/// The well-known namespace prefix of player identities on the bus.
pub open spec fn spec_is_mpris(name: Seq<char>) -> bool {
    spec_starts_with(name, "org.mpris.MediaPlayer2."@)
}

/// Whether a bus identity belongs to the player namespace.
pub fn is_mpris_name(name: &str) -> (r: bool)
    ensures
        r == spec_is_mpris(name@),
{
    str_starts_with(name, "org.mpris.MediaPlayer2.")
}

/// How an ownership-change signal is handled: outside the player namespace
/// or an owner-to-owner transfer it is ignored; a name losing its owner
/// removes the player; a name gaining its first owner announces a peer.
#[derive(Clone, Copy, PartialEq, Eq, Structural, Debug)]
pub enum OwnerChangeKind {
    Ignored,
    Removed,
    Appeared,
}

/// Classification of an ownership-change signal; an empty owner string
/// denotes absence.
pub open spec fn spec_owner_kind(
    name: Seq<char>,
    old_owner: Seq<char>,
    new_owner: Seq<char>,
) -> OwnerChangeKind {
    if !spec_is_mpris(name) {
        OwnerChangeKind::Ignored
    } else if new_owner.len() == 0 {
        OwnerChangeKind::Removed
    } else if old_owner.len() == 0 {
        OwnerChangeKind::Appeared
    } else {
        OwnerChangeKind::Ignored
    }
}

/// Classify an ownership-change signal.
pub fn classify_owner_change(name: &str, old_owner: &str, new_owner: &str) -> (r: OwnerChangeKind)
    ensures
        r == spec_owner_kind(name@, old_owner@, new_owner@),
{
    if !is_mpris_name(name) {
        OwnerChangeKind::Ignored
    } else if new_owner.is_empty() {
        OwnerChangeKind::Removed
    } else if old_owner.is_empty() {
        OwnerChangeKind::Appeared
    } else {
        OwnerChangeKind::Ignored
    }
}

/// Whether a full state fetch must precede the commit of an
/// ownership-change signal: exactly when a peer appeared.
pub fn owner_change_needs_fetch(name: &str, old_owner: &str, new_owner: &str) -> (r: bool)
    ensures
        r == (spec_owner_kind(name@, old_owner@, new_owner@) == OwnerChangeKind::Appeared),
{
    matches!(
        classify_owner_change(name, old_owner, new_owner),
        OwnerChangeKind::Appeared
    )
}

/// The state a targeted refresh starts from: the one on record, or a fresh
/// one anchored now for a player seen for the first time.
pub open spec fn spec_refresh_base(
    reg: Seq<crate::registry::EntryV>,
    name: Seq<char>,
    now_us: i64,
) -> PlayerStateV {
    if spec_has(reg, name) {
        spec_state_of(reg, name)
    } else {
        spec_fresh_state(now_us)
    }
}

/// What a property-changed signal asks for: nothing, a targeted refresh of
/// one resolved identity, or a fallback refresh of every tracked identity.
pub enum RefreshPlan {
    Skip,
    One(String),
    All(Vec<String>),
}

/// The whole aggregation engine state: the player registry, the identity
/// resolver, and the dedup emitter.
pub struct Engine {
    pub registry: Registry,
    pub identities: IdentityMap,
    pub emitter: Emitter,
}

impl Engine {
    /// Both lookup structures keep their keys unique.
    pub open spec fn wf(&self) -> bool {
        self.registry.wf() && self.identities.wf()
    }

    /// An engine that tracks nothing and has emitted nothing.
    pub fn new() -> (r: Self)
        ensures
            r.wf(),
            r.registry@ == Seq::<crate::registry::EntryV>::empty(),
            r.identities@ == Seq::<crate::identity::BindingV>::empty(),
            r.emitter@ is None,
    {
        Engine { registry: Registry::new(), identities: IdentityMap::new(), emitter: Emitter::new() }
    }

    /// Commit a full state fetch for `name`: the fetched values are applied
    /// over the state on record (or a fresh one), and the entry is stored.
    /// A fetch that obtained none of the three properties was not successful
    /// and creates nothing: the registry is left as it was. Returns the art
    /// URL whose bytes the caller should load, if any.
    pub fn apply_refresh(&mut self, name: &str, props: &FetchedProps, now_us: i64) -> (need_art:
        Option<String>)
        requires
            old(self).wf(),
        ensures
            final(self).wf(),
            final(self).identities@ == old(self).identities@,
            final(self).emitter == old(self).emitter,
            spec_props_empty(*props) ==> final(self).registry@ == old(self).registry@
                && need_art is None,
            !spec_props_empty(*props) ==> {
                &&& reg_names(final(self).registry@) == reg_names(old(self).registry@).insert(
                    name@,
                )
                &&& spec_has(final(self).registry@, name@)
                &&& spec_state_of(final(self).registry@, name@) == spec_apply_fetched(
                    *props,
                    spec_refresh_base(old(self).registry@, name@, now_us),
                    now_us,
                )
                &&& forall|o: Seq<char>|
                    o != name@ ==> #[trigger] spec_has(final(self).registry@, o) == spec_has(
                        old(self).registry@,
                        o,
                    )
                &&& forall|o: Seq<char>|
                    o != name@ && spec_has(old(self).registry@, o) ==> #[trigger] spec_state_of(
                        final(self).registry@,
                        o,
                    ) == spec_state_of(old(self).registry@, o)
                &&& opt_str_view(need_art) == spec_fetched_art_request(
                    *props,
                    spec_refresh_base(old(self).registry@, name@, now_us),
                )
            },
    {
        if props.metadata.is_none() && props.playback.is_none() && props.position.is_none() {
            return None;
        }
        let mut st = match self.registry.get_cloned(name) {
            Some(st) => st,
            None => PlayerState::fresh(now_us),
        };
        let need_art = apply_fetched(&mut st, props, now_us);
        self.registry.set(name, st);
        need_art
    }

    /// Commit an ownership-change signal. For an appeared peer the caller
    /// fetches the peer's state first and hands it in; `None` stands for a
    /// fetch that could not even start, which still records the identity
    /// mapping, as discovery would.
    pub fn on_owner_changed(
        &mut self,
        name: &str,
        old_owner: &str,
        new_owner: &str,
        props: Option<&FetchedProps>,
        now_us: i64,
    ) -> (need_art: Option<String>)
        requires
            old(self).wf(),
        ensures
            final(self).wf(),
            final(self).emitter == old(self).emitter,
            spec_owner_kind(name@, old_owner@, new_owner@) == OwnerChangeKind::Ignored ==> {
                &&& final(self).registry@ == old(self).registry@
                &&& final(self).identities@ == old(self).identities@
                &&& need_art is None
            },
            spec_owner_kind(name@, old_owner@, new_owner@) == OwnerChangeKind::Removed ==> {
                &&& need_art is None
                &&& reg_names(final(self).registry@) == reg_names(old(self).registry@).remove(
                    name@,
                )
                &&& !spec_has(final(self).registry@, name@)
                &&& forall|o: Seq<char>|
                    o != name@ ==> #[trigger] spec_has(final(self).registry@, o) == spec_has(
                        old(self).registry@,
                        o,
                    )
                &&& forall|o: Seq<char>|
                    o != name@ && spec_has(old(self).registry@, o) ==> #[trigger] spec_state_of(
                        final(self).registry@,
                        o,
                    ) == spec_state_of(old(self).registry@, o)
                &&& if old_owner@.len() > 0 {
                    &&& !spec_owner_has(final(self).identities@, old_owner@)
                    &&& forall|o: Seq<char>|
                        o != old_owner@ ==> #[trigger] spec_owner_has(final(self).identities@, o)
                            == spec_owner_has(old(self).identities@, o)
                    &&& forall|o: Seq<char>|
                        o != old_owner@ && spec_owner_has(old(self).identities@, o)
                            ==> #[trigger] spec_name_for(final(self).identities@, o)
                            == spec_name_for(old(self).identities@, o)
                    &&& forall|k: int|
                        0 <= k < final(self).identities@.len() ==> old(self).identities@.contains(
                            #[trigger] final(self).identities@[k],
                        )
                } else {
                    final(self).identities@ == old(self).identities@
                }
            },
            spec_owner_kind(name@, old_owner@, new_owner@) == OwnerChangeKind::Appeared ==> {
                &&& spec_owner_has(final(self).identities@, new_owner@)
                &&& spec_name_for(final(self).identities@, new_owner@) == name@
                &&& forall|o: Seq<char>|
                    o != new_owner@ ==> #[trigger] spec_owner_has(final(self).identities@, o)
                        == spec_owner_has(old(self).identities@, o)
                &&& forall|o: Seq<char>|
                    o != new_owner@ && spec_owner_has(old(self).identities@, o)
                        ==> #[trigger] spec_name_for(final(self).identities@, o) == spec_name_for(
                        old(self).identities@,
                        o,
                    )
                &&& forall|k: int|
                    0 <= k < final(self).identities@.len() ==> (#[trigger] final(self).identities@[k]) == (crate::identity::BindingV {
                        owner: new_owner@,
                        name: name@,
                    }) || old(self).identities@.contains(final(self).identities@[k])
                &&& match props {
                    Some(p) => {
                        if spec_props_empty(*p) {
                            &&& final(self).registry@ == old(self).registry@
                            &&& need_art is None
                        } else {
                            &&& reg_names(final(self).registry@) == reg_names(
                                old(self).registry@,
                            ).insert(name@)
                            &&& spec_has(final(self).registry@, name@)
                            &&& spec_state_of(final(self).registry@, name@) == spec_apply_fetched(
                                *p,
                                spec_refresh_base(old(self).registry@, name@, now_us),
                                now_us,
                            )
                            &&& forall|o: Seq<char>|
                                o != name@ ==> #[trigger] spec_has(final(self).registry@, o)
                                    == spec_has(old(self).registry@, o)
                            &&& forall|o: Seq<char>|
                                o != name@ && spec_has(old(self).registry@, o) ==> #[trigger]
                                spec_state_of(final(self).registry@, o) == spec_state_of(
                                    old(self).registry@,
                                    o,
                                )
                            &&& opt_str_view(need_art) == spec_fetched_art_request(
                                *p,
                                spec_refresh_base(old(self).registry@, name@, now_us),
                            )
                        }
                    },
                    None => {
                        &&& final(self).registry@ == old(self).registry@
                        &&& need_art is None
                    },
                }
            },
    {
        match classify_owner_change(name, old_owner, new_owner) {
            OwnerChangeKind::Ignored => None,
            OwnerChangeKind::Removed => {
                self.registry.remove(name);
                if !old_owner.is_empty() {
                    self.identities.remove(old_owner);
                }
                None
            },
            OwnerChangeKind::Appeared => {
                self.identities.insert(new_owner, name);
                match props {
                    Some(p) => self.apply_refresh(name, p, now_us),
                    None => None,
                }
            },
        }
    }

    /// Record one peer found by discovery: its owner mapping when the owner
    /// resolved, and its fetched state when the fetch succeeded. A name
    /// outside the player namespace is ignored. A failure of either call is
    /// isolated to that peer.
    pub fn on_discovered(
        &mut self,
        name: &str,
        owner: Option<&String>,
        props: Option<&FetchedProps>,
        now_us: i64,
    ) -> (need_art: Option<String>)
        requires
            old(self).wf(),
        ensures
            final(self).wf(),
            final(self).emitter == old(self).emitter,
            !spec_is_mpris(name@) ==> {
                &&& final(self).registry@ == old(self).registry@
                &&& final(self).identities@ == old(self).identities@
                &&& need_art is None
            },
            spec_is_mpris(name@) ==> {
                &&& match owner {
                    Some(o) => {
                        &&& spec_owner_has(final(self).identities@, o@)
                        &&& spec_name_for(final(self).identities@, o@) == name@
                        &&& forall|x: Seq<char>|
                            x != o@ ==> #[trigger] spec_owner_has(final(self).identities@, x)
                                == spec_owner_has(old(self).identities@, x)
                        &&& forall|x: Seq<char>|
                            x != o@ && spec_owner_has(old(self).identities@, x) ==> #[trigger]
                            spec_name_for(final(self).identities@, x) == spec_name_for(
                                old(self).identities@,
                                x,
                            )
                        &&& forall|k: int|
                            0 <= k < final(self).identities@.len() ==> (#[trigger] final(self).identities@[k]) == (crate::identity::BindingV {
                                owner: o@,
                                name: name@,
                            }) || old(self).identities@.contains(final(self).identities@[k])
                    },
                    None => final(self).identities@ == old(self).identities@,
                }
                &&& match props {
                    Some(p) => {
                        if spec_props_empty(*p) {
                            &&& final(self).registry@ == old(self).registry@
                            &&& need_art is None
                        } else {
                            &&& reg_names(final(self).registry@) == reg_names(
                                old(self).registry@,
                            ).insert(name@)
                            &&& spec_has(final(self).registry@, name@)
                            &&& spec_state_of(final(self).registry@, name@) == spec_apply_fetched(
                                *p,
                                spec_refresh_base(old(self).registry@, name@, now_us),
                                now_us,
                            )
                            &&& forall|o: Seq<char>|
                                o != name@ ==> #[trigger] spec_has(final(self).registry@, o)
                                    == spec_has(old(self).registry@, o)
                            &&& forall|o: Seq<char>|
                                o != name@ && spec_has(old(self).registry@, o) ==> #[trigger]
                                spec_state_of(final(self).registry@, o) == spec_state_of(
                                    old(self).registry@,
                                    o,
                                )
                            &&& opt_str_view(need_art) == spec_fetched_art_request(
                                *p,
                                spec_refresh_base(old(self).registry@, name@, now_us),
                            )
                        }
                    },
                    None => {
                        &&& final(self).registry@ == old(self).registry@
                        &&& need_art is None
                    },
                }
            },
    {
        if !is_mpris_name(name) {
            return None;
        }
        match owner {
            Some(o) => {
                self.identities.insert(o.as_str(), name);
            },
            None => {},
        }
        match props {
            Some(p) => self.apply_refresh(name, p, now_us),
            None => None,
        }
    }

    /// Decide what a property-changed signal asks for. Payload deltas are
    /// never trusted as complete: a resolvable sender gets a targeted
    /// re-fetch of its full state; an unresolved sender (a race between a
    /// peer's appearance and its first signal) falls back to refreshing
    /// every tracked identity rather than dropping the event.
    pub fn plan_properties_changed(&self, iface: &str, has_changes: bool, sender: &str) -> (r:
        RefreshPlan)
        requires
            self.wf(),
        ensures
            match r {
                RefreshPlan::Skip => iface@ != "org.mpris.MediaPlayer2.Player"@ || !has_changes,
                RefreshPlan::One(n) => iface@ == "org.mpris.MediaPlayer2.Player"@ && has_changes
                    && spec_owner_has(self.identities@, sender@) && n@ == spec_name_for(
                    self.identities@,
                    sender@,
                ),
                RefreshPlan::All(ns) => iface@ == "org.mpris.MediaPlayer2.Player"@ && has_changes
                    && !spec_owner_has(self.identities@, sender@) && strs_view(ns@)
                    == spec_all_names(self.registry@),
            },
            (iface@ == "org.mpris.MediaPlayer2.Player"@ && has_changes) == !(r is Skip),
    {
        if !str_eq(iface, "org.mpris.MediaPlayer2.Player") || !has_changes {
            return RefreshPlan::Skip;
        }
        match self.identities.resolve(sender) {
            Some(name) => RefreshPlan::One(name),
            None => RefreshPlan::All(self.registry.all_names()),
        }
    }

    /// Commit one position poll result: a coercible position payload for a
    /// tracked player records a fresh anchor; anything else changes nothing.
    /// Polling never creates an entry.
    pub fn apply_position(&mut self, name: &str, val: &BusValue, now_us: i64)
        requires
            old(self).wf(),
        ensures
            final(self).wf(),
            final(self).identities@ == old(self).identities@,
            final(self).emitter == old(self).emitter,
            forall|o: Seq<char>|
                #[trigger] spec_has(final(self).registry@, o) == spec_has(old(self).registry@, o),
            match spec_value_i64(*val) {
                Some(p) => {
                    if spec_has(old(self).registry@, name@) {
                        &&& spec_state_of(final(self).registry@, name@) == (PlayerStateV {
                            position_us: p,
                            updated_at: now_us,
                            ..spec_state_of(old(self).registry@, name@)
                        })
                        &&& forall|o: Seq<char>|
                            o != name@ && spec_has(old(self).registry@, o) ==> #[trigger]
                            spec_state_of(final(self).registry@, o) == spec_state_of(
                                old(self).registry@,
                                o,
                            )
                    } else {
                        final(self).registry@ == old(self).registry@
                    }
                },
                None => final(self).registry@ == old(self).registry@,
            },
    {
        match value_to_i64(val) {
            Some(p) => {
                match self.registry.get_cloned(name) {
                    Some(st) => {
                        let mut st = st;
                        st.position_us = p;
                        st.updated_at = now_us;
                        self.registry.set(name, st);
                    },
                    None => {},
                }
            },
            None => {},
        }
    }

    /// Store freshly loaded artwork for `name`, but only when `url` is still
    /// the art URL on record: a track or URL change since the load began
    /// makes the bytes stale, and they are dropped.
    pub fn store_art(&mut self, name: &str, url: &str, art: Option<String>)
        requires
            old(self).wf(),
        ensures
            final(self).wf(),
            final(self).identities@ == old(self).identities@,
            final(self).emitter == old(self).emitter,
            forall|o: Seq<char>|
                #[trigger] spec_has(final(self).registry@, o) == spec_has(old(self).registry@, o),
            if spec_has(old(self).registry@, name@) && spec_state_of(old(self).registry@, name@).art_url
                == Some(url@) {
                &&& spec_state_of(final(self).registry@, name@) == (PlayerStateV {
                    art_base64: opt_str_view(art),
                    ..spec_state_of(old(self).registry@, name@)
                })
                &&& forall|o: Seq<char>|
                    o != name@ && spec_has(old(self).registry@, o) ==> #[trigger] spec_state_of(
                        final(self).registry@,
                        o,
                    ) == spec_state_of(old(self).registry@, o)
            } else {
                final(self).registry@ == old(self).registry@
            },
    {
        match self.registry.get_cloned(name) {
            Some(st) => {
                let matches_url = match &st.art_url {
                    Some(u) => str_eq(u.as_str(), url),
                    None => false,
                };
                if matches_url {
                    let mut st = st;
                    st.art_base64 = art;
                    self.registry.set(name, st);
                }
            },
            None => {},
        }
    }

    /// Recompute the canonical snapshot and offer it for emission: the best
    /// entry of a non-empty registry, read at `now_us`, goes through the
    /// dedup slot; an empty registry produces nothing and leaves the slot
    /// untouched.
    pub fn emit_step(&mut self, now_us: i64) -> (r: Option<SongInfo>)
        requires
            old(self).wf(),
        ensures
            final(self).wf(),
            final(self).registry@ == old(self).registry@,
            final(self).identities@ == old(self).identities@,
            old(self).registry@.len() == 0 ==> r is None && final(self).emitter@ == old(self).emitter@,
            old(self).registry@.len() > 0 ==> ({
                let v = spec_song_of(
                    old(self).registry@[spec_best_index(old(self).registry@)].state,
                    now_us,
                );
                &&& final(self).emitter@ == spec_offer(old(self).emitter@, v).0
                &&& opt_song_view(r) == spec_offer(old(self).emitter@, v).1
            }),
    {
        match self.registry.select_best() {
            Some(i) => {
                let st = self.registry.state_at(i);
                let info = st.to_song_info(now_us);
                self.emitter.offer(info)
            },
            None => None,
        }
    }
}

} // verus!
