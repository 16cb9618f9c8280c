//! The identity resolver: a lookup table from transient connection id to
//! stable player identity. Entries are created when a peer appears and
//! removed when it disappears; property-change notifications arrive tagged
//! with the transient id and are resolved here.

use vstd::prelude::*;

use crate::text::str_eq;

verus! {

/// Mathematical view of one binding.
pub struct BindingV {
    pub owner: Seq<char>,
    pub name: Seq<char>,
}

/// One binding: a transient connection id and the stable identity it owns.
pub struct Binding {
    pub owner: String,
    pub name: String,
}

impl View for Binding {
    type V = BindingV;

    open spec fn view(&self) -> BindingV {
        BindingV { owner: self.owner@, name: self.name@ }
    }
}

/// Some binding carries this transient id.
pub open spec fn spec_owner_has(s: Seq<BindingV>, owner: Seq<char>) -> bool {
    exists|i: int| 0 <= i < s.len() && (#[trigger] s[i].owner) == owner
}

/// The index of the binding for this transient id (unique when owners are
/// distinct).
pub open spec fn spec_owner_index(s: Seq<BindingV>, owner: Seq<char>) -> int {
    choose|i: int| 0 <= i < s.len() && (#[trigger] s[i].owner) == owner
}

/// The identity bound to this transient id.
pub open spec fn spec_name_for(s: Seq<BindingV>, owner: Seq<char>) -> Seq<char> {
    s[spec_owner_index(s, owner)].name
}

/// The lookup table from transient connection id to stable identity.
pub struct IdentityMap {
    bindings: Vec<Binding>,
}

impl View for IdentityMap {
    type V = Seq<BindingV>;

    closed spec fn view(&self) -> Seq<BindingV> {
        self.bindings@.map_values(|b: Binding| b@)
    }
}

impl IdentityMap {
    /// Transient ids are pairwise distinct: at most one live binding per id.
    pub open spec fn wf(&self) -> bool {
        forall|i: int, j: int|
            #![trigger self@[i].owner, self@[j].owner]
            0 <= i < self@.len() && 0 <= j < self@.len() && i != j ==> self@[i].owner
                != self@[j].owner
    }

    /// An empty table.
    pub fn new() -> (r: Self)
        ensures
            r@ == Seq::<BindingV>::empty(),
            r.wf(),
    {
        let r = IdentityMap { bindings: Vec::new() };
        proof {
            assert(r@ =~= Seq::<BindingV>::empty());
        }
        r
    }

    /// Index of the binding for `owner`, if one exists.
    fn find(&self, owner: &str) -> (r: Option<usize>)
        ensures
            match r {
                Some(i) => 0 <= i < self@.len() && self@[i as int].owner == owner@,
                None => !spec_owner_has(self@, owner@),
            },
    {
        let n = self.bindings.len();
        let mut i: usize = 0;
        while i < n
            invariant
                i <= n,
                n == self@.len(),
                forall|j: int| 0 <= j < i ==> (#[trigger] self@[j].owner) != owner@,
            decreases n - i,
        {
            if str_eq(self.bindings[i].owner.as_str(), owner) {
                return Some(i);
            }
            i = i + 1;
        }
        None
    }

    /// The stable identity bound to `owner`, if any.
    pub fn resolve(&self, owner: &str) -> (r: Option<String>)
        requires
            self.wf(),
        ensures
            match r {
                Some(name) => spec_owner_has(self@, owner@) && name@ == spec_name_for(
                    self@,
                    owner@,
                ),
                None => !spec_owner_has(self@, owner@),
            },
    {
        match self.find(owner) {
            Some(i) => {
                let name = self.bindings[i].name.clone();
                proof {
                    let j = spec_owner_index(self@, owner@);
                    assert(self@[j].owner == owner@);
                    assert(j == i as int);
                }
                Some(name)
            },
            None => None,
        }
    }

    /// Bind `owner` to `name`, replacing any prior binding for `owner`.
    /// Every binding afterwards is either the new pair or one that was
    /// already in the table.
    pub fn insert(&mut self, owner: &str, name: &str)
        requires
            old(self).wf(),
        ensures
            final(self).wf(),
            spec_owner_has(final(self)@, owner@),
            spec_name_for(final(self)@, owner@) == name@,
            forall|o: Seq<char>|
                o != owner@ ==> #[trigger] spec_owner_has(final(self)@, o) == spec_owner_has(
                    old(self)@,
                    o,
                ),
            forall|o: Seq<char>|
                o != owner@ && spec_owner_has(old(self)@, o) ==> #[trigger] spec_name_for(
                    final(self)@,
                    o,
                ) == spec_name_for(old(self)@, o),
            forall|k: int|
                0 <= k < final(self)@.len() ==> (#[trigger] final(self)@[k]) == (BindingV {
                    owner: owner@,
                    name: name@,
                }) || old(self)@.contains(final(self)@[k]),
    {
        let ghost pre = self@;
        let b = Binding { owner: owner.to_owned(), name: name.to_owned() };
        match self.find(owner) {
            Some(i) => {
                self.bindings[i] = b;
                proof {
                    let post = self@;
                    assert(post =~= pre.update(i as int, BindingV { owner: owner@, name: name@ }));
                    assert forall|p: int, q: int|
                        0 <= p < post.len() && 0 <= q < post.len() && p != q implies post[p].owner
                        != post[q].owner by {
                        assert(pre[p].owner != pre[q].owner);
                    }
                    assert(post[i as int].owner == owner@);
                    let j = spec_owner_index(post, owner@);
                    assert(post[j].owner == owner@);
                    assert(j == i as int);
                    assert forall|o: Seq<char>| o != owner@ implies #[trigger] spec_owner_has(
                        post,
                        o,
                    ) == spec_owner_has(pre, o) by {
                        if spec_owner_has(post, o) {
                            let k = choose|k: int|
                                0 <= k < post.len() && (#[trigger] post[k].owner) == o;
                            assert(pre[k].owner == o);
                        }
                        if spec_owner_has(pre, o) {
                            let k = choose|k: int|
                                0 <= k < pre.len() && (#[trigger] pre[k].owner) == o;
                            assert(post[k].owner == o);
                        }
                    }
                    assert forall|o: Seq<char>|
                        o != owner@ && spec_owner_has(pre, o) implies #[trigger] spec_name_for(
                        post,
                        o,
                    ) == spec_name_for(pre, o) by {
                        assert(spec_owner_has(post, o));
                        let k = spec_owner_index(post, o);
                        assert(post[k].owner == o);
                        assert(pre[k].owner == o);
                        let k2 = spec_owner_index(pre, o);
                        assert(pre[k2].owner == o);
                        assert(k2 == k);
                    }
                    assert forall|k: int| 0 <= k < post.len() && k != i as int implies
                        pre.contains(#[trigger] post[k]) by {
                        assert(post[k] == pre[k]);
                    }
                }
            },
            None => {
                self.bindings.push(b);
                proof {
                    let post = self@;
                    assert(post =~= pre.push(BindingV { owner: owner@, name: name@ }));
                    let n = pre.len() as int;
                    assert(post[n].owner == owner@);
                    assert forall|p: int, q: int|
                        0 <= p < post.len() && 0 <= q < post.len() && p != q implies post[p].owner
                        != post[q].owner by {
                        if p < n && q < n {
                            assert(pre[p].owner != pre[q].owner);
                        } else if p == n {
                            assert(pre[q].owner != owner@);
                        } else if q == n {
                            assert(pre[p].owner != owner@);
                        }
                    }
                    let j = spec_owner_index(post, owner@);
                    assert(post[j].owner == owner@);
                    assert(j == n);
                    assert forall|o: Seq<char>| o != owner@ implies #[trigger] spec_owner_has(
                        post,
                        o,
                    ) == spec_owner_has(pre, o) by {
                        if spec_owner_has(post, o) {
                            let k = choose|k: int|
                                0 <= k < post.len() && (#[trigger] post[k].owner) == o;
                            assert(k != n);
                            assert(pre[k].owner == o);
                        }
                        if spec_owner_has(pre, o) {
                            let k = choose|k: int|
                                0 <= k < pre.len() && (#[trigger] pre[k].owner) == o;
                            assert(post[k].owner == o);
                        }
                    }
                    assert forall|o: Seq<char>|
                        o != owner@ && spec_owner_has(pre, o) implies #[trigger] spec_name_for(
                        post,
                        o,
                    ) == spec_name_for(pre, o) by {
                        assert(spec_owner_has(post, o));
                        let k = spec_owner_index(post, o);
                        assert(post[k].owner == o);
                        assert(k != n);
                        assert(pre[k].owner == o);
                        let k2 = spec_owner_index(pre, o);
                        assert(pre[k2].owner == o);
                        assert(k2 == k);
                    }
                    assert forall|k: int| 0 <= k < post.len() && k != n implies pre.contains(
                        #[trigger] post[k],
                    ) by {
                        assert(post[k] == pre[k]);
                    }
                }
            },
        }
    }

    /// Drop the binding for `owner`, if any. Every remaining binding was
    /// already in the table.
    pub fn remove(&mut self, owner: &str)
        requires
            old(self).wf(),
        ensures
            final(self).wf(),
            !spec_owner_has(final(self)@, owner@),
            forall|o: Seq<char>|
                o != owner@ ==> #[trigger] spec_owner_has(final(self)@, o) == spec_owner_has(
                    old(self)@,
                    o,
                ),
            forall|o: Seq<char>|
                o != owner@ && spec_owner_has(old(self)@, o) ==> #[trigger] spec_name_for(
                    final(self)@,
                    o,
                ) == spec_name_for(old(self)@, o),
            forall|k: int|
                0 <= k < final(self)@.len() ==> old(self)@.contains(#[trigger] final(self)@[k]),
    {
        let ghost pre = self@;
        match self.find(owner) {
            Some(i) => {
                self.bindings.remove(i);
                proof {
                    let post = self@;
                    assert(post =~= pre.remove(i as int));
                    assert(forall|j: int|
                        0 <= j < post.len() ==> post[j] == (if j < i as int {
                            pre[j]
                        } else {
                            pre[j + 1]
                        }));
                    assert forall|p: int, q: int|
                        0 <= p < post.len() && 0 <= q < post.len() && p != q implies post[p].owner
                        != post[q].owner by {}
                    assert forall|k: int| 0 <= k < post.len() implies (#[trigger] post[k].owner)
                        != owner@ by {
                        if k < i as int {
                            assert(pre[k].owner != pre[i as int].owner);
                        } else {
                            assert(pre[k + 1].owner != pre[i as int].owner);
                        }
                    }
                    assert forall|o: Seq<char>| o != owner@ implies #[trigger] spec_owner_has(
                        post,
                        o,
                    ) == spec_owner_has(pre, o) by {
                        if spec_owner_has(post, o) {
                            let k = choose|k: int|
                                0 <= k < post.len() && (#[trigger] post[k].owner) == o;
                        }
                        if spec_owner_has(pre, o) {
                            let k = choose|k: int|
                                0 <= k < pre.len() && (#[trigger] pre[k].owner) == o;
                            assert(k != i as int);
                            if k < i as int {
                                assert(post[k].owner == o);
                            } else {
                                assert(post[k - 1].owner == o);
                            }
                        }
                    }
                    assert forall|o: Seq<char>|
                        o != owner@ && spec_owner_has(pre, o) implies #[trigger] spec_name_for(
                        post,
                        o,
                    ) == spec_name_for(pre, o) by {
                        assert(spec_owner_has(post, o));
                        let k = spec_owner_index(post, o);
                        assert(post[k].owner == o);
                        let k2 = spec_owner_index(pre, o);
                        assert(pre[k2].owner == o);
                        if k < i as int {
                            assert(pre[k].owner == o);
                            assert(k2 == k);
                        } else {
                            assert(pre[k + 1].owner == o);
                            assert(k2 == k + 1);
                        }
                    }
                }
            },
            None => {},
        }
    }
}

} // verus!
