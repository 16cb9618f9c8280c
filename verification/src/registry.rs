//! The player registry: a mapping from stable player identity to
//! `PlayerState`, with unique keys, and the canonical-selection rule over a
//! registry snapshot.

use vstd::prelude::*;

use crate::player::{PlaybackStatus, PlayerState, PlayerStateV};
use crate::text::str_eq;

verus! {

/// Mathematical view of one registry entry.
pub struct EntryV {
    pub name: Seq<char>,
    pub state: PlayerStateV,
}

/// One registry entry: a player identity and its tracked state.
pub struct Entry {
    pub name: String,
    pub state: PlayerState,
}

impl View for Entry {
    type V = EntryV;

    open spec fn view(&self) -> EntryV {
        EntryV { name: self.name@, state: self.state@ }
    }
}

/// Some entry carries this identity.
pub open spec fn spec_has(s: Seq<EntryV>, name: Seq<char>) -> bool {
    exists|i: int| 0 <= i < s.len() && (#[trigger] s[i].name) == name
}

/// The index of the entry carrying this identity (unique when names are
/// distinct).
pub open spec fn spec_index_of(s: Seq<EntryV>, name: Seq<char>) -> int {
    choose|i: int| 0 <= i < s.len() && (#[trigger] s[i].name) == name
}

/// The state tracked for this identity.
pub open spec fn spec_state_of(s: Seq<EntryV>, name: Seq<char>) -> PlayerStateV {
    s[spec_index_of(s, name)].state
}

/// The set of identities present in a registry snapshot.
pub open spec fn reg_names(s: Seq<EntryV>) -> Set<Seq<char>> {
    Set::new(|n: Seq<char>| spec_has(s, n))
}

/// The mapping from stable player identity to tracked state; the only
/// mutable shared resource of the aggregation engine.
pub struct Registry {
    entries: Vec<Entry>,
}

impl View for Registry {
    type V = Seq<EntryV>;

    closed spec fn view(&self) -> Seq<EntryV> {
        self.entries@.map_values(|e: Entry| e@)
    }
}

impl Registry {
    /// Identities are pairwise distinct.
    pub open spec fn wf(&self) -> bool {
        forall|i: int, j: int|
            #![trigger self@[i].name, self@[j].name]
            0 <= i < self@.len() && 0 <= j < self@.len() && i != j ==> self@[i].name != self@[j].name
    }

    /// An empty registry; the engine starts from it before discovery runs.
    pub fn new() -> (r: Self)
        ensures
            r@ == Seq::<EntryV>::empty(),
            r.wf(),
    {
        let r = Registry { entries: Vec::new() };
        proof {
            assert(r@ =~= Seq::<EntryV>::empty());
        }
        r
    }

    /// The number of tracked players.
    pub fn len(&self) -> (r: usize)
        ensures
            r == self@.len(),
    {
        self.entries.len()
    }

    /// Index of the entry for `name`, if one exists.
    fn find(&self, name: &str) -> (r: Option<usize>)
        ensures
            match r {
                Some(i) => 0 <= i < self@.len() && self@[i as int].name == name@,
                None => !spec_has(self@, name@),
            },
    {
        let n = self.entries.len();
        let mut i: usize = 0;
        while i < n
            invariant
                i <= n,
                n == self@.len(),
                forall|j: int| 0 <= j < i ==> (#[trigger] self@[j].name) != name@,
            decreases n - i,
        {
            if str_eq(self.entries[i].name.as_str(), name) {
                return Some(i);
            }
            i = i + 1;
        }
        None
    }

    /// Whether `name` is tracked.
    pub fn contains(&self, name: &str) -> (r: bool)
        ensures
            r == spec_has(self@, name@),
    {
        match self.find(name) {
            Some(_) => true,
            None => false,
        }
    }

    /// A copy of the state tracked for `name`.
    pub fn get_cloned(&self, name: &str) -> (r: Option<PlayerState>)
        requires
            self.wf(),
        ensures
            match r {
                Some(st) => spec_has(self@, name@) && st@ == spec_state_of(self@, name@),
                None => !spec_has(self@, name@),
            },
    {
        match self.find(name) {
            Some(i) => {
                let st = self.entries[i].state.clone();
                proof {
                    let j = spec_index_of(self@, name@);
                    assert(self@[j].name == name@);
                    assert(j == i as int);
                }
                Some(st)
            },
            None => None,
        }
    }

    /// Insert or replace the state tracked for `name`. Every other entry is
    /// untouched.
    pub fn set(&mut self, name: &str, st: PlayerState)
        requires
            old(self).wf(),
        ensures
            final(self).wf(),
            spec_has(final(self)@, name@),
            spec_state_of(final(self)@, name@) == st@,
            forall|o: Seq<char>|
                o != name@ ==> #[trigger] spec_has(final(self)@, o) == spec_has(old(self)@, o),
            forall|o: Seq<char>|
                o != name@ && spec_has(old(self)@, o) ==> #[trigger] spec_state_of(final(self)@, o)
                    == spec_state_of(old(self)@, o),
            reg_names(final(self)@) == reg_names(old(self)@).insert(name@),
    {
        let ghost pre = self@;
        match self.find(name) {
            Some(i) => {
                self.entries[i] = Entry { name: name.to_owned(), state: st };
                proof {
                    let post = self@;
                    assert(post =~= pre.update(i as int, EntryV { name: name@, state: st@ }));
                    assert forall|p: int, q: int|
                        0 <= p < post.len() && 0 <= q < post.len() && p != q implies post[p].name
                        != post[q].name by {
                        assert(pre[p].name != pre[q].name);
                    }
                    assert(post[i as int].name == name@);
                    let j = spec_index_of(post, name@);
                    assert(post[j].name == name@);
                    assert(j == i as int);
                    assert forall|o: Seq<char>| o != name@ implies #[trigger] spec_has(post, o)
                        == spec_has(pre, o) by {
                        if spec_has(post, o) {
                            let k = choose|k: int|
                                0 <= k < post.len() && (#[trigger] post[k].name) == o;
                            assert(pre[k].name == o);
                        }
                        if spec_has(pre, o) {
                            let k = choose|k: int|
                                0 <= k < pre.len() && (#[trigger] pre[k].name) == o;
                            assert(post[k].name == o);
                        }
                    }
                    assert forall|o: Seq<char>| o != name@ && spec_has(pre, o) implies #[trigger]
                    spec_state_of(post, o) == spec_state_of(pre, o) by {
                        assert(spec_has(post, o));
                        let k = spec_index_of(post, o);
                        assert(post[k].name == o);
                        assert(pre[k].name == o);
                        let k2 = spec_index_of(pre, o);
                        assert(pre[k2].name == o);
                        assert(k2 == k);
                    }
                    assert(reg_names(post) =~= reg_names(pre).insert(name@));
                }
            },
            None => {
                self.entries.push(Entry { name: name.to_owned(), state: st });
                proof {
                    let post = self@;
                    assert(post =~= pre.push(EntryV { name: name@, state: st@ }));
                    let n = pre.len() as int;
                    assert(post[n].name == name@);
                    assert forall|p: int, q: int|
                        0 <= p < post.len() && 0 <= q < post.len() && p != q implies post[p].name
                        != post[q].name by {
                        if p < n && q < n {
                            assert(pre[p].name != pre[q].name);
                        } else if p == n {
                            assert(pre[q].name != name@);
                        } else if q == n {
                            assert(pre[p].name != name@);
                        }
                    }
                    let j = spec_index_of(post, name@);
                    assert(post[j].name == name@);
                    assert(j == n);
                    assert forall|o: Seq<char>| o != name@ implies #[trigger] spec_has(post, o)
                        == spec_has(pre, o) by {
                        if spec_has(post, o) {
                            let k = choose|k: int|
                                0 <= k < post.len() && (#[trigger] post[k].name) == o;
                            assert(k != n);
                            assert(pre[k].name == o);
                        }
                        if spec_has(pre, o) {
                            let k = choose|k: int|
                                0 <= k < pre.len() && (#[trigger] pre[k].name) == o;
                            assert(post[k].name == o);
                        }
                    }
                    assert forall|o: Seq<char>| o != name@ && spec_has(pre, o) implies #[trigger]
                    spec_state_of(post, o) == spec_state_of(pre, o) by {
                        assert(spec_has(post, o));
                        let k = spec_index_of(post, o);
                        assert(post[k].name == o);
                        assert(k != n);
                        assert(pre[k].name == o);
                        let k2 = spec_index_of(pre, o);
                        assert(pre[k2].name == o);
                        assert(k2 == k);
                    }
                    assert(reg_names(post) =~= reg_names(pre).insert(name@));
                }
            },
        }
    }

    /// Drop the entry for `name`, if any. Every other entry is untouched.
    pub fn remove(&mut self, name: &str)
        requires
            old(self).wf(),
        ensures
            final(self).wf(),
            !spec_has(final(self)@, name@),
            forall|o: Seq<char>|
                o != name@ ==> #[trigger] spec_has(final(self)@, o) == spec_has(old(self)@, o),
            forall|o: Seq<char>|
                o != name@ && spec_has(old(self)@, o) ==> #[trigger] spec_state_of(final(self)@, o)
                    == spec_state_of(old(self)@, o),
            reg_names(final(self)@) == reg_names(old(self)@).remove(name@),
    {
        let ghost pre = self@;
        match self.find(name) {
            Some(i) => {
                self.entries.remove(i);
                proof {
                    let post = self@;
                    assert(post =~= pre.remove(i as int));
                    assert(forall|j: int|
                        0 <= j < post.len() ==> post[j] == (if j < i as int {
                            pre[j]
                        } else {
                            pre[j + 1]
                        }));
                    assert forall|p: int, q: int|
                        0 <= p < post.len() && 0 <= q < post.len() && p != q implies post[p].name
                        != post[q].name by {}
                    assert forall|k: int| 0 <= k < post.len() implies (#[trigger] post[k].name)
                        != name@ by {
                        if k < i as int {
                            assert(pre[k].name != pre[i as int].name);
                        } else {
                            assert(pre[k + 1].name != pre[i as int].name);
                        }
                    }
                    assert forall|o: Seq<char>| o != name@ implies #[trigger] spec_has(post, o)
                        == spec_has(pre, o) by {
                        if spec_has(post, o) {
                            let k = choose|k: int|
                                0 <= k < post.len() && (#[trigger] post[k].name) == o;
                        }
                        if spec_has(pre, o) {
                            let k = choose|k: int|
                                0 <= k < pre.len() && (#[trigger] pre[k].name) == o;
                            assert(k != i as int);
                            if k < i as int {
                                assert(post[k].name == o);
                            } else {
                                assert(post[k - 1].name == o);
                            }
                        }
                    }
                    assert forall|o: Seq<char>| o != name@ && spec_has(pre, o) implies #[trigger]
                    spec_state_of(post, o) == spec_state_of(pre, o) by {
                        assert(spec_has(post, o));
                        let k = spec_index_of(post, o);
                        assert(post[k].name == o);
                        let k2 = spec_index_of(pre, o);
                        assert(pre[k2].name == o);
                        if k < i as int {
                            assert(pre[k].name == o);
                            assert(k2 == k);
                        } else {
                            assert(pre[k + 1].name == o);
                            assert(k2 == k + 1);
                        }
                    }
                    assert(reg_names(post) =~= reg_names(pre).remove(name@));
                }
            },
            None => {
                proof {
                    assert(reg_names(self@) =~= reg_names(pre).remove(name@));
                }
            },
        }
    }

    /// The identities of all players currently reporting `Playing`, in
    /// registry order. The position poller refreshes exactly these.
    pub fn playing_names(&self) -> (r: Vec<String>)
        ensures
            crate::text::strs_view(r@) == spec_playing_names(self@),
    {
        let mut out: Vec<String> = Vec::new();
        let n = self.entries.len();
        let mut i: usize = 0;
        proof {
            assert(self@.skip(0) =~= self@);
            assert(crate::text::strs_view(out@) =~= Seq::<Seq<char>>::empty());
        }
        while i < n
            invariant
                i <= n,
                n == self@.len(),
                crate::text::strs_view(out@) + spec_playing_names(self@.skip(i as int))
                    == spec_playing_names(self@),
            decreases n - i,
        {
            proof {
                assert(self@.skip(i as int)[0] == self@[i as int]);
                assert(self@.skip(i as int).drop_first() =~= self@.skip(i as int + 1));
            }
            if matches!(self.entries[i].state.status, PlaybackStatus::Playing) {
                out.push(self.entries[i].name.clone());
                proof {
                    assert(crate::text::strs_view(out@) =~= crate::text::strs_view(out@.drop_last())
                        + seq![out@.last()@]);
                    assert(crate::text::strs_view(out@) + spec_playing_names(
                        self@.skip(i as int + 1),
                    ) =~= spec_playing_names(self@));
                }
            } else {
                proof {
                    assert(crate::text::strs_view(out@) + spec_playing_names(
                        self@.skip(i as int + 1),
                    ) =~= spec_playing_names(self@));
                }
            }
            i = i + 1;
        }
        proof {
            assert(spec_playing_names(self@.skip(n as int)).len() == 0);
            assert(crate::text::strs_view(out@) =~= spec_playing_names(self@));
        }
        out
    }

    /// All tracked identities, in registry order; the fallback refresh plan.
    pub fn all_names(&self) -> (r: Vec<String>)
        ensures
            crate::text::strs_view(r@) == spec_all_names(self@),
    {
        let mut out: Vec<String> = Vec::new();
        let n = self.entries.len();
        let mut i: usize = 0;
        proof {
            assert(self@.skip(0) =~= self@);
            assert(crate::text::strs_view(out@) =~= Seq::<Seq<char>>::empty());
        }
        while i < n
            invariant
                i <= n,
                n == self@.len(),
                crate::text::strs_view(out@) + spec_all_names(self@.skip(i as int))
                    == spec_all_names(self@),
            decreases n - i,
        {
            proof {
                assert(self@.skip(i as int)[0] == self@[i as int]);
                assert(self@.skip(i as int).drop_first() =~= self@.skip(i as int + 1));
            }
            out.push(self.entries[i].name.clone());
            proof {
                assert(crate::text::strs_view(out@) =~= crate::text::strs_view(out@.drop_last())
                    + seq![out@.last()@]);
                assert(crate::text::strs_view(out@) + spec_all_names(self@.skip(i as int + 1))
                    =~= spec_all_names(self@));
            }
            i = i + 1;
        }
        proof {
            assert(spec_all_names(self@.skip(n as int)).len() == 0);
            assert(crate::text::strs_view(out@) =~= spec_all_names(self@));
        }
        out
    }

    /// Pick the canonical entry: the first entry no other entry beats, under
    /// the rule that a playing player beats a non-playing one and, within a
    /// class, a more recent update beats an older one. `None` exactly when
    /// the registry is empty.
    pub fn select_best(&self) -> (r: Option<usize>)
        ensures
            match r {
                Some(i) => self@.len() > 0 && i < self@.len() && i == spec_best_index(self@),
                None => self@.len() == 0,
            },
    {
        let n = self.entries.len();
        if n == 0 {
            return None;
        }
        let mut best: usize = 0;
        let mut i: usize = 1;
        proof {
            assert(self@.take(1) =~= seq![self@[0]]);
        }
        while i < n
            invariant
                1 <= i <= n,
                n == self@.len(),
                best < i,
                best == spec_best_index(self@.take(i as int)),
            decreases n - i,
        {
            proof {
                assert(self@.take(i as int + 1).drop_last() =~= self@.take(i as int));
                assert(self@.take(i as int + 1).last() == self@[i as int]);
                assert(self@.take(i as int)[spec_best_index(self@.take(i as int))]
                    == self@[best as int]);
            }
            if state_better(&self.entries[i].state, &self.entries[best].state) {
                best = i;
            }
            i = i + 1;
        }
        proof {
            assert(self@.take(n as int) =~= self@);
        }
        Some(best)
    }

    /// A copy of the state at `i`; lets a caller read the selected entry.
    pub fn state_at(&self, i: usize) -> (r: PlayerState)
        requires
            i < self@.len(),
        ensures
            r@ == self@[i as int].state,
    {
        self.entries[i].state.clone()
    }
}

/// Identities of playing entries, in order.
pub open spec fn spec_playing_names(s: Seq<EntryV>) -> Seq<Seq<char>>
    decreases s.len(),
{
    if s.len() == 0 {
        Seq::<Seq<char>>::empty()
    } else if s[0].state.status == PlaybackStatus::Playing {
        seq![s[0].name] + spec_playing_names(s.drop_first())
    } else {
        spec_playing_names(s.drop_first())
    }
}

/// All identities, in order.
pub open spec fn spec_all_names(s: Seq<EntryV>) -> Seq<Seq<char>>
    decreases s.len(),
{
    if s.len() == 0 {
        Seq::<Seq<char>>::empty()
    } else {
        seq![s[0].name] + spec_all_names(s.drop_first())
    }
}

/// `a` beats `b`: playing beats non-playing; within a class, the more
/// recently updated state wins.
pub open spec fn spec_better(a: PlayerStateV, b: PlayerStateV) -> bool {
    let pa = a.status == PlaybackStatus::Playing;
    let pb = b.status == PlaybackStatus::Playing;
    (pa && !pb) || (pa == pb && a.updated_at > b.updated_at)
}

/// Executable form of `spec_better`.
fn state_better(a: &PlayerState, b: &PlayerState) -> (r: bool)
    ensures
        r == spec_better(a@, b@),
{
    let pa = matches!(a.status, PlaybackStatus::Playing);
    let pb = matches!(b.status, PlaybackStatus::Playing);
    (pa && !pb) || (pa == pb && a.updated_at > b.updated_at)
}

/// The index the selection rule picks from a non-empty snapshot: the first
/// entry that no later entry strictly beats.
pub open spec fn spec_best_index(s: Seq<EntryV>) -> int
    decreases s.len(),
{
    if s.len() <= 1 {
        0
    } else {
        let b = spec_best_index(s.drop_last());
        if spec_better(s.last().state, s[b].state) {
            s.len() - 1
        } else {
            b
        }
    }
}

/// The selected index is in range and no entry beats the entry it names.
pub proof fn lemma_best_index_props(s: Seq<EntryV>)
    requires
        s.len() > 0,
    ensures
        0 <= spec_best_index(s) < s.len(),
        forall|j: int| 0 <= j < s.len() ==> !spec_better(#[trigger] s[j].state, s[spec_best_index(s)].state),
    decreases s.len(),
{
    if s.len() == 1 {
    } else {
        lemma_best_index_props(s.drop_last());
        let b0 = spec_best_index(s.drop_last());
        let b = spec_best_index(s);
        assert forall|j: int| 0 <= j < s.len() implies !spec_better(
            #[trigger] s[j].state,
            s[b].state,
        ) by {
            if j < s.len() - 1 {
                assert(s.drop_last()[j] == s[j]);
                assert(!spec_better(s[j].state, s[b0].state));
            }
        }
    }
}

} // verus!
