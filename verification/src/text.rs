//! Small verified helpers over strings: equality, prefix tests, joining.

use vstd::prelude::*;
use vstd::string::StrSliceExecFns;
use vstd::string::StringExecFns;

verus! {

/// Character-level equality of two string slices.
pub fn str_eq(a: &str, b: &str) -> (r: bool)
    ensures
        r == (a@ == b@),
{
    let sa: String = a.to_owned();
    let sb: String = b.to_owned();
    sa == sb
}

/// `p` is a prefix of `s`.
pub open spec fn spec_starts_with(s: Seq<char>, p: Seq<char>) -> bool {
    p.len() <= s.len() && s.subrange(0, p.len() as int) == p
}

/// Character-level prefix test.
pub fn str_starts_with(s: &str, prefix: &str) -> (r: bool)
    ensures
        r == spec_starts_with(s@, prefix@),
{
    let n = prefix.unicode_len();
    let m = s.unicode_len();
    if n > m {
        return false;
    }
    let mut i: usize = 0;
    while i < n
        invariant
            i <= n,
            n == prefix@.len(),
            n <= m,
            m == s@.len(),
            forall|j: int| 0 <= j < i ==> s@[j] == prefix@[j],
        decreases n - i,
    {
        let cs = s.get_char(i);
        let cp = prefix.get_char(i);
        if cs != cp {
            proof {
                assert(s@.subrange(0, n as int)[i as int] == s@[i as int]);
            }
            return false;
        }
        i = i + 1;
    }
    proof {
        assert(s@.subrange(0, n as int) =~= prefix@);
    }
    true
}

/// The characters of `s` after its prefix `p`.
pub open spec fn spec_after_prefix(s: Seq<char>, p: Seq<char>) -> Seq<char> {
    s.subrange(p.len() as int, s.len() as int)
}

/// Remove a prefix: the remainder when `prefix` starts `s`, nothing
/// otherwise.
pub fn strip_prefix_str(s: &str, prefix: &str) -> (r: Option<String>)
    ensures
        match r {
            Some(t) => spec_starts_with(s@, prefix@) && t@ == spec_after_prefix(s@, prefix@),
            None => !spec_starts_with(s@, prefix@),
        },
{
    if str_starts_with(s, prefix) {
        let rest = s.substring_char(prefix.unicode_len(), s.unicode_len());
        Some(rest.to_owned())
    } else {
        None
    }
}

/// View of a sequence of strings as a sequence of character sequences.
pub open spec fn strs_view(v: Seq<String>) -> Seq<Seq<char>> {
    v.map_values(|s: String| s@)
}

/// The comma-joined flattening of a list of strings: the first item, then
/// `", "` before each further item.
pub open spec fn spec_join_comma(items: Seq<Seq<char>>) -> Seq<char> {
    if items.len() == 0 {
        Seq::<char>::empty()
    } else {
        items[0] + spec_join_tail(items.drop_first())
    }
}

/// The tail of a comma-joined list: `", "` before every item.
pub open spec fn spec_join_tail(items: Seq<Seq<char>>) -> Seq<char>
    decreases items.len(),
{
    if items.len() == 0 {
        Seq::<char>::empty()
    } else {
        ", "@ + items[0] + spec_join_tail(items.drop_first())
    }
}

/// Join a list of strings with `", "` between items.
pub fn join_comma(items: &Vec<String>) -> (r: String)
    ensures
        r@ == spec_join_comma(strs_view(items@)),
{
    let mut acc = String::new();
    let n = items.len();
    if n == 0 {
        return acc;
    }
    acc.append(items[0].as_str());
    let mut i: usize = 1;
    proof {
        assert(strs_view(items@).drop_first() =~= strs_view(items@).skip(1));
        assert(acc@ == strs_view(items@)[0]);
    }
    while i < n
        invariant
            1 <= i <= n,
            n == items@.len(),
            acc@ + spec_join_tail(strs_view(items@).skip(i as int)) == spec_join_comma(
                strs_view(items@),
            ),
        decreases n - i,
    {
        acc.append(", ");
        acc.append(items[i].as_str());
        proof {
            assert(strs_view(items@).skip(i as int).drop_first() =~= strs_view(items@).skip(
                i as int + 1,
            ));
            assert(strs_view(items@).skip(i as int)[0] == items@[i as int]@);
        }
        i = i + 1;
    }
    proof {
        assert(strs_view(items@).skip(n as int).len() == 0);
        assert(acc@ + Seq::<char>::empty() =~= acc@);
    }
    acc
}

} // verus!
