//! The engine's global guarantees, stated over the same spec functions its
//! operations ensure and proved once and for all.

use vstd::prelude::*;

use crate::engine::{OwnerChangeKind, spec_is_mpris, spec_offer, spec_owner_kind};
use crate::identity::{BindingV, spec_name_for, spec_owner_has};
use crate::models::SongInfoV;
use crate::player::PlaybackStatus;
use crate::registry::{EntryV, lemma_best_index_props, spec_best_index, spec_better};

verus! {

/// When some player is playing, the selector picks a playing one, and its
/// update timestamp is the most recent among all playing players.
pub proof fn lemma_selector_playing_max(s: Seq<EntryV>, i: int)
    requires
        0 <= i < s.len(),
        s[i].state.status == PlaybackStatus::Playing,
    ensures
        0 <= spec_best_index(s) < s.len(),
        s[spec_best_index(s)].state.status == PlaybackStatus::Playing,
        forall|j: int|
            0 <= j < s.len() && (#[trigger] s[j].state).status == PlaybackStatus::Playing
                ==> s[j].state.updated_at <= s[spec_best_index(s)].state.updated_at,
{
    lemma_best_index_props(s);
    let b = spec_best_index(s);
    if s[b].state.status != PlaybackStatus::Playing {
        assert(spec_better(s[i].state, s[b].state));
        assert(false);
    }
    assert forall|j: int|
        0 <= j < s.len() && (#[trigger] s[j].state).status
            == PlaybackStatus::Playing implies s[j].state.updated_at
        <= s[b].state.updated_at by {
        if s[j].state.updated_at > s[b].state.updated_at {
            assert(spec_better(s[j].state, s[b].state));
        }
    }
}

/// If exactly one player is playing and the others are paused or stopped,
/// the selector returns the playing one, regardless of relative update
/// recency.
pub proof fn lemma_selector_prefers_playing(s: Seq<EntryV>, i: int)
    requires
        0 <= i < s.len(),
        s[i].state.status == PlaybackStatus::Playing,
        forall|j: int|
            0 <= j < s.len() && j != i ==> (#[trigger] s[j].state).status
                != PlaybackStatus::Playing,
    ensures
        spec_best_index(s) == i,
{
    lemma_selector_playing_max(s, i);
}

/// Among any number of playing players, the strictly most recently updated
/// one wins, whatever the non-playing entries hold: tie-break is strictly
/// most-recent-update, with no fixed priority among identities.
pub proof fn lemma_selector_most_recent_playing_wins(s: Seq<EntryV>, i: int)
    requires
        0 <= i < s.len(),
        s[i].state.status == PlaybackStatus::Playing,
        forall|j: int|
            0 <= j < s.len() && j != i && (#[trigger] s[j].state).status
                == PlaybackStatus::Playing ==> s[j].state.updated_at < s[i].state.updated_at,
    ensures
        spec_best_index(s) == i,
{
    lemma_selector_playing_max(s, i);
}

/// If two players are both playing, the selector returns the one with the
/// larger update timestamp.
pub proof fn lemma_selector_latest_playing_wins(s: Seq<EntryV>, i: int, j: int)
    requires
        0 <= i < s.len(),
        0 <= j < s.len(),
        i != j,
        s[i].state.status == PlaybackStatus::Playing,
        s[j].state.status == PlaybackStatus::Playing,
        s[i].state.updated_at > s[j].state.updated_at,
        forall|k: int|
            0 <= k < s.len() && k != i && k != j ==> (#[trigger] s[k].state).status
                != PlaybackStatus::Playing,
    ensures
        spec_best_index(s) == i,
{
    lemma_selector_most_recent_playing_wins(s, i);
}

/// Emission is idempotent under no change: whatever the dedup slot held
/// before, after one offer of a snapshot a second offer of the same snapshot
/// emits nothing and leaves the slot as it was.
pub proof fn lemma_emit_idempotent(last: Option<SongInfoV>, v: SongInfoV)
    ensures
        spec_offer(spec_offer(last, v).0, v).1 is None,
        spec_offer(spec_offer(last, v).0, v).0 == spec_offer(last, v).0,
{
}

/// Abstract view of the engine and of the bus around it: which identities
/// currently own a connection (`live`), which transient id owns each
/// (`owner_of`), which identities the registry tracks (`reg`), and the
/// resolver's transient-id table (`ids`).
pub struct AggState {
    pub live: Set<Seq<char>>,
    pub owner_of: Map<Seq<char>, Seq<char>>,
    pub reg: Set<Seq<char>>,
    pub ids: Map<Seq<char>, Seq<char>>,
}

/// One observed discovery or signal event. `fetched` tells whether the full
/// state fetch for the affected identity succeeded, that is, obtained at
/// least one of the three properties; `relevant` tells whether a
/// property-changed signal named the player interface with a non-empty
/// payload.
pub enum AggEvent {
    Discovered { name: Seq<char>, owner: Option<Seq<char>>, fetched: bool },
    OwnerChanged { name: Seq<char>, old_owner: Seq<char>, new_owner: Seq<char>, fetched: bool },
    PropertiesChanged { sender: Seq<char>, relevant: bool, fetched: bool },
}

/// Before discovery runs: nothing live is known and nothing is tracked.
pub open spec fn agg_init() -> AggState {
    AggState {
        live: Set::<Seq<char>>::empty(),
        owner_of: Map::<Seq<char>, Seq<char>>::empty(),
        reg: Set::<Seq<char>>::empty(),
        ids: Map::<Seq<char>, Seq<char>>::empty(),
    }
}

/// What the bus guarantees of an event: discovery lists only live names and
/// resolves their true owners; a name loses only the owner it has and gains
/// one only while it has none.
pub open spec fn agg_event_wf(a: AggState, ev: AggEvent) -> bool {
    match ev {
        AggEvent::Discovered { name, owner, fetched } => spec_is_mpris(name) ==> {
            &&& a.live.contains(name)
            &&& match owner {
                Some(o) => o.len() > 0 && a.owner_of.dom().contains(name) && a.owner_of[name]
                    == o,
                None => true,
            }
        },
        AggEvent::OwnerChanged { name, old_owner, new_owner, fetched } => {
            &&& spec_owner_kind(name, old_owner, new_owner) == OwnerChangeKind::Removed ==> {
                &&& a.live.contains(name)
                &&& a.owner_of.dom().contains(name)
                &&& a.owner_of[name] == old_owner
            }
            &&& spec_owner_kind(name, old_owner, new_owner) == OwnerChangeKind::Appeared
                ==> !a.live.contains(name)
        },
        AggEvent::PropertiesChanged { sender, relevant, fetched } => true,
    }
}

/// The effect of one event, clause for clause what the engine's operations
/// ensure at the identity-set level: `on_discovered` and `on_owner_changed`
/// insert and remove exactly these identities and bindings, and the refresh
/// a property-changed signal plans touches the resolved identity alone (the
/// unresolved fallback re-fetches identities the registry already tracks,
/// which adds none).
pub open spec fn agg_step(a: AggState, ev: AggEvent) -> AggState {
    match ev {
        AggEvent::Discovered { name, owner, fetched } => {
            if !spec_is_mpris(name) {
                a
            } else {
                AggState {
                    ids: match owner {
                        Some(o) => a.ids.insert(o, name),
                        None => a.ids,
                    },
                    reg: if fetched {
                        a.reg.insert(name)
                    } else {
                        a.reg
                    },
                    ..a
                }
            }
        },
        AggEvent::OwnerChanged { name, old_owner, new_owner, fetched } => {
            match spec_owner_kind(name, old_owner, new_owner) {
                OwnerChangeKind::Ignored => a,
                OwnerChangeKind::Removed => AggState {
                    live: a.live.remove(name),
                    owner_of: a.owner_of.remove(name),
                    reg: a.reg.remove(name),
                    ids: if old_owner.len() > 0 {
                        a.ids.remove(old_owner)
                    } else {
                        a.ids
                    },
                },
                OwnerChangeKind::Appeared => AggState {
                    live: a.live.insert(name),
                    owner_of: a.owner_of.insert(name, new_owner),
                    reg: if fetched {
                        a.reg.insert(name)
                    } else {
                        a.reg
                    },
                    ids: a.ids.insert(new_owner, name),
                },
            }
        },
        AggEvent::PropertiesChanged { sender, relevant, fetched } => {
            if relevant && a.ids.dom().contains(sender) && fetched {
                AggState { reg: a.reg.insert(a.ids[sender]), ..a }
            } else {
                a
            }
        },
    }
}

/// The engine's safety invariant: the registry tracks only identities whose
/// owning connection is live, and the resolver binds a transient id — never
/// the empty string, which denotes absence — only to the live identity it
/// currently owns.
pub open spec fn agg_inv(a: AggState) -> bool {
    &&& forall|n: Seq<char>| #[trigger] a.reg.contains(n) ==> a.live.contains(n)
    &&& forall|o: Seq<char>|
        #[trigger] a.ids.dom().contains(o) ==> {
            &&& o.len() > 0
            &&& a.live.contains(a.ids[o])
            &&& a.owner_of.dom().contains(a.ids[o])
            &&& a.owner_of[a.ids[o]] == o
        }
}

/// Every well-formed event preserves the safety invariant.
pub proof fn lemma_agg_step_preserves_inv(a: AggState, ev: AggEvent)
    requires
        agg_inv(a),
        agg_event_wf(a, ev),
    ensures
        agg_inv(agg_step(a, ev)),
{
    let post = agg_step(a, ev);
    match ev {
        AggEvent::Discovered { name, owner, fetched } => {},
        AggEvent::OwnerChanged { name, old_owner, new_owner, fetched } => {
            match spec_owner_kind(name, old_owner, new_owner) {
                OwnerChangeKind::Ignored => {},
                OwnerChangeKind::Removed => {
                    assert forall|o: Seq<char>| #[trigger] post.ids.dom().contains(o) implies {
                        &&& post.live.contains(post.ids[o])
                        &&& post.owner_of.dom().contains(post.ids[o])
                        &&& post.owner_of[post.ids[o]] == o
                    } by {
                        assert(a.ids.dom().contains(o));
                        assert(a.ids[o] != name);
                    }
                },
                OwnerChangeKind::Appeared => {
                    assert forall|o: Seq<char>| #[trigger] post.ids.dom().contains(o) implies {
                        &&& post.live.contains(post.ids[o])
                        &&& post.owner_of.dom().contains(post.ids[o])
                        &&& post.owner_of[post.ids[o]] == o
                    } by {
                        if o != new_owner {
                            assert(a.ids.dom().contains(o));
                            assert(a.ids[o] != name);
                        }
                    }
                },
            }
        },
        AggEvent::PropertiesChanged { sender, relevant, fetched } => {},
    }
}

/// Committing a refresh for any identity a refresh plan can name keeps the
/// invariant: a targeted plan names what the resolver bound (live by the
/// invariant), and the fallback plan names only identities already tracked.
pub proof fn lemma_planned_refresh_preserves_inv(a: AggState, name: Seq<char>)
    requires
        agg_inv(a),
        a.reg.contains(name) || (exists|o: Seq<char>|
            #[trigger] a.ids.dom().contains(o) && a.ids[o] == name),
    ensures
        agg_inv(AggState { reg: a.reg.insert(name), ..a }),
{
}

/// The state after a sequence of events, starting from nothing.
pub open spec fn agg_run(evs: Seq<AggEvent>) -> AggState
    decreases evs.len(),
{
    if evs.len() == 0 {
        agg_init()
    } else {
        agg_step(agg_run(evs.drop_last()), evs.last())
    }
}

/// Every event of the sequence is well-formed in the state it meets.
pub open spec fn agg_trace_wf(evs: Seq<AggEvent>) -> bool
    decreases evs.len(),
{
    if evs.len() == 0 {
        true
    } else {
        agg_trace_wf(evs.drop_last()) && agg_event_wf(agg_run(evs.drop_last()), evs.last())
    }
}

/// After any well-formed sequence of discovery and signal events, the
/// registry contains no identity whose owning connection has disappeared:
/// every tracked identity is live.
pub proof fn lemma_registry_tracks_live(evs: Seq<AggEvent>)
    requires
        agg_trace_wf(evs),
    ensures
        agg_inv(agg_run(evs)),
        forall|n: Seq<char>|
            #[trigger] agg_run(evs).reg.contains(n) ==> agg_run(evs).live.contains(n),
    decreases evs.len(),
{
    if evs.len() == 0 {
    } else {
        lemma_registry_tracks_live(evs.drop_last());
        lemma_agg_step_preserves_inv(agg_run(evs.drop_last()), evs.last());
    }
}

/// The resolver's abstract content: the map its lookup facts describe.
pub open spec fn ids_map(s: Seq<BindingV>) -> Map<Seq<char>, Seq<char>> {
    Map::<Seq<char>, Seq<char>>::new(
        |o: Seq<char>| spec_owner_has(s, o),
        |o: Seq<char>| spec_name_for(s, o),
    )
}

/// What `IdentityMap::insert` ensures is exactly a map insertion: the facts
/// it states of the bindings afterwards pin `ids_map` down to
/// `ids_map(before).insert(owner, name)`, the operation `agg_step` uses.
pub proof fn lemma_ids_map_insert(
    pre: Seq<BindingV>,
    post: Seq<BindingV>,
    owner: Seq<char>,
    name: Seq<char>,
)
    requires
        spec_owner_has(post, owner),
        spec_name_for(post, owner) == name,
        forall|o: Seq<char>|
            o != owner ==> #[trigger] spec_owner_has(post, o) == spec_owner_has(pre, o),
        forall|o: Seq<char>|
            o != owner && spec_owner_has(pre, o) ==> #[trigger] spec_name_for(post, o)
                == spec_name_for(pre, o),
    ensures
        ids_map(post) == ids_map(pre).insert(owner, name),
{
    assert(ids_map(post) =~= ids_map(pre).insert(owner, name));
}

/// What `IdentityMap::remove` ensures is exactly a map removal.
pub proof fn lemma_ids_map_remove(pre: Seq<BindingV>, post: Seq<BindingV>, owner: Seq<char>)
    requires
        !spec_owner_has(post, owner),
        forall|o: Seq<char>|
            o != owner ==> #[trigger] spec_owner_has(post, o) == spec_owner_has(pre, o),
        forall|o: Seq<char>|
            o != owner && spec_owner_has(pre, o) ==> #[trigger] spec_name_for(post, o)
                == spec_name_for(pre, o),
    ensures
        ids_map(post) == ids_map(pre).remove(owner),
{
    assert(ids_map(post) =~= ids_map(pre).remove(owner));
}

} // verus!
