//! A tagged union modelling loosely-typed message-bus payload values:
//! strings, object paths, fixed-width integers, arrays, dictionaries, and
//! values wrapped (possibly repeatedly) in a generic variant envelope.
//! Decoding never assumes a single fixed shape: wrappers are stripped
//! recursively and each target field type has its own coercion.

use vstd::prelude::*;

verus! {

/// A bus payload value. `Wrapped` is the generic variant envelope; `Opaque`
/// stands for any payload shape the decoder has no use for.
pub enum BusValue {
    Str(String),
    ObjectPath(String),
    I64(i64),
    U64(u64),
    I32(i32),
    U32(u32),
    Array(Vec<BusValue>),
    Dict(Vec<(String, BusValue)>),
    Wrapped(Box<BusValue>),
    Opaque,
}

/// The concrete value inside any number of variant envelopes.
pub open spec fn spec_unwrap(v: BusValue) -> BusValue
    decreases v,
{
    match v {
        BusValue::Wrapped(inner) => spec_unwrap(*inner),
        _ => v,
    }
}

/// The string a value coerces to: strings and object paths only, after
/// unwrapping.
pub open spec fn spec_value_str(v: BusValue) -> Option<Seq<char>> {
    match spec_unwrap(v) {
        BusValue::Str(s) => Some(s@),
        BusValue::ObjectPath(p) => Some(p@),
        _ => None,
    }
}

/// A 64-bit unsigned value reinterpreted as signed, as a narrowing cast
/// does: values above the signed maximum wrap around.
pub open spec fn spec_u64_as_i64(n: u64) -> i64 {
    if n <= i64::MAX {
        n as i64
    } else {
        (n - 0x1_0000_0000_0000_0000) as i64
    }
}

/// The 64-bit signed integer a value coerces to: any of the fixed-width
/// integer encodings, after unwrapping.
pub open spec fn spec_value_i64(v: BusValue) -> Option<i64> {
    match spec_unwrap(v) {
        BusValue::I64(n) => Some(n),
        BusValue::U64(n) => Some(spec_u64_as_i64(n)),
        BusValue::I32(n) => Some(n as i64),
        BusValue::U32(n) => Some(n as i64),
        _ => None,
    }
}

/// First binding of `key` in an association list.
pub open spec fn spec_dict_get(d: Seq<(String, BusValue)>, key: Seq<char>) -> Option<BusValue>
    decreases d.len(),
{
    if d.len() == 0 {
        None
    } else if d[0].0@ == key {
        Some(d[0].1)
    } else {
        spec_dict_get(d.drop_first(), key)
    }
}

/// Stripping envelopes is idempotent: the result holds no envelope.
pub proof fn lemma_unwrap_idem(v: BusValue)
    ensures
        spec_unwrap(spec_unwrap(v)) == spec_unwrap(v),
    decreases v,
{
    match v {
        BusValue::Wrapped(inner) => lemma_unwrap_idem(*inner),
        _ => {},
    }
}

/// Recursively strip variant envelopes until a concrete value is reached.
pub fn unwrap_variant(v: &BusValue) -> (r: &BusValue)
    ensures
        *r == spec_unwrap(*v),
    decreases v,
{
    match v {
        BusValue::Wrapped(inner) => unwrap_variant(inner),
        _ => v,
    }
}

/// Coerce a value to a string (strings and object paths, behind any number
/// of envelopes).
pub fn value_to_string(v: &BusValue) -> (r: Option<String>)
    ensures
        crate::models::opt_str_view(r) == spec_value_str(*v),
{
    match unwrap_variant(v) {
        BusValue::Str(s) => Some(s.clone()),
        BusValue::ObjectPath(p) => Some(p.clone()),
        _ => None,
    }
}

/// Coerce a value to a 64-bit signed integer (any fixed-width integer
/// encoding, behind any number of envelopes).
pub fn value_to_i64(v: &BusValue) -> (r: Option<i64>)
    ensures
        r == spec_value_i64(*v),
{
    match unwrap_variant(v) {
        BusValue::I64(n) => Some(*n),
        BusValue::U64(n) => {
            if *n <= 0x7fff_ffff_ffff_ffff {
                Some(*n as i64)
            } else {
                Some(((*n - 0x8000_0000_0000_0000) as i64) + i64::MIN)
            }
        },
        BusValue::I32(n) => Some(*n as i64),
        BusValue::U32(n) => Some(*n as i64),
        _ => None,
    }
}

/// Look `key` up in a dictionary payload.
pub fn dict_get<'a>(d: &'a Vec<(String, BusValue)>, key: &str) -> (r: Option<&'a BusValue>)
    ensures
        match r {
            Some(v) => spec_dict_get(d@, key@) == Some(*v),
            None => spec_dict_get(d@, key@) is None,
        },
{
    let n = d.len();
    let mut i: usize = 0;
    proof {
        assert(d@.skip(0) =~= d@);
    }
    while i < n
        invariant
            i <= n,
            n == d@.len(),
            spec_dict_get(d@, key@) == spec_dict_get(d@.skip(i as int), key@),
        decreases n - i,
    {
        if crate::text::str_eq(d[i].0.as_str(), key) {
            proof {
                assert(d@.skip(i as int)[0] == d@[i as int]);
            }
            return Some(&d[i].1);
        }
        proof {
            assert(d@.skip(i as int).drop_first() =~= d@.skip(i as int + 1));
        }
        i = i + 1;
    }
    None
}

/// The string bound to `key`, if one is bound and coerces.
pub open spec fn spec_dict_string(d: Seq<(String, BusValue)>, key: Seq<char>) -> Option<Seq<char>> {
    match spec_dict_get(d, key) {
        Some(v) => spec_value_str(v),
        None => None,
    }
}

/// Read a string field from a dictionary payload.
pub fn dict_string(d: &Vec<(String, BusValue)>, key: &str) -> (r: Option<String>)
    ensures
        crate::models::opt_str_view(r) == spec_dict_string(d@, key@),
{
    match dict_get(d, key) {
        Some(v) => value_to_string(v),
        None => None,
    }
}

/// The integer bound to `key`, if one is bound and coerces.
pub open spec fn spec_dict_i64(d: Seq<(String, BusValue)>, key: Seq<char>) -> Option<i64> {
    match spec_dict_get(d, key) {
        Some(v) => spec_value_i64(v),
        None => None,
    }
}

/// Read an integer field from a dictionary payload.
pub fn dict_i64(d: &Vec<(String, BusValue)>, key: &str) -> (r: Option<i64>)
    ensures
        r == spec_dict_i64(d@, key@),
{
    match dict_get(d, key) {
        Some(v) => value_to_i64(v),
        None => None,
    }
}

/// The strings among the items of an array payload, in order.
pub open spec fn spec_strings_of(arr: Seq<BusValue>) -> Seq<Seq<char>>
    decreases arr.len(),
{
    if arr.len() == 0 {
        Seq::<Seq<char>>::empty()
    } else {
        match spec_value_str(arr[0]) {
            Some(s) => seq![s] + spec_strings_of(arr.drop_first()),
            None => spec_strings_of(arr.drop_first()),
        }
    }
}

/// The string list bound to `key`: an array of strings, or a single string
/// taken as a list of one. An array with no coercible item yields nothing.
pub open spec fn spec_dict_string_list(d: Seq<(String, BusValue)>, key: Seq<char>) -> Option<
    Seq<Seq<char>>,
> {
    match spec_dict_get(d, key) {
        Some(v) => match spec_unwrap(v) {
            BusValue::Array(arr) => {
                let items = spec_strings_of(arr@);
                if items.len() > 0 {
                    Some(items)
                } else {
                    match spec_value_str(v) {
                        Some(s) => Some(seq![s]),
                        None => None,
                    }
                }
            },
            _ => match spec_value_str(v) {
                Some(s) => Some(seq![s]),
                None => None,
            },
        },
        None => None,
    }
}

/// Collect the strings among the items of an array payload.
fn strings_of(arr: &Vec<BusValue>) -> (r: Vec<String>)
    ensures
        crate::text::strs_view(r@) == spec_strings_of(arr@),
{
    let mut out: Vec<String> = Vec::new();
    let n = arr.len();
    let mut i: usize = 0;
    proof {
        assert(arr@.skip(0) =~= arr@);
        assert(crate::text::strs_view(out@) =~= Seq::<Seq<char>>::empty());
        assert(crate::text::strs_view(out@) + spec_strings_of(arr@.skip(0)) =~= spec_strings_of(
            arr@,
        ));
    }
    while i < n
        invariant
            i <= n,
            n == arr@.len(),
            crate::text::strs_view(out@) + spec_strings_of(arr@.skip(i as int)) == spec_strings_of(
                arr@,
            ),
        decreases n - i,
    {
        proof {
            assert(arr@.skip(i as int)[0] == arr@[i as int]);
            assert(arr@.skip(i as int).drop_first() =~= arr@.skip(i as int + 1));
        }
        match value_to_string(&arr[i]) {
            Some(s) => {
                out.push(s);
                proof {
                    assert(crate::text::strs_view(out@) =~= crate::text::strs_view(
                        out@.drop_last(),
                    ) + seq![out@.last()@]);
                    assert(crate::text::strs_view(out@) + spec_strings_of(
                        arr@.skip(i as int + 1),
                    ) =~= spec_strings_of(arr@));
                }
            },
            None => {
                proof {
                    assert(crate::text::strs_view(out@) + spec_strings_of(
                        arr@.skip(i as int + 1),
                    ) =~= spec_strings_of(arr@));
                }
            },
        }
        i = i + 1;
    }
    proof {
        assert(spec_strings_of(arr@.skip(n as int)).len() == 0);
        assert(crate::text::strs_view(out@) =~= spec_strings_of(arr@));
    }
    out
}

/// Read a string-list field from a dictionary payload. Some players report
/// a single string where a list is expected; both shapes normalize here.
pub fn dict_string_list(d: &Vec<(String, BusValue)>, key: &str) -> (r: Option<Vec<String>>)
    ensures
        match r {
            Some(items) => spec_dict_string_list(d@, key@) == Some(
                crate::text::strs_view(items@),
            ),
            None => spec_dict_string_list(d@, key@) is None,
        },
{
    let v = match dict_get(d, key) {
        Some(v) => v,
        None => {
            return None;
        },
    };
    let inner = unwrap_variant(v);
    proof {
        lemma_unwrap_idem(*v);
    }
    if let BusValue::Array(arr) = inner {
        let items = strings_of(arr);
        if items.len() > 0 {
            return Some(items);
        }
    }
    match value_to_string(inner) {
        Some(s) => {
            let items = vec![s];
            proof {
                assert(crate::text::strs_view(items@) =~= seq![items@[0]@]);
            }
            Some(items)
        },
        None => None,
    }
}

} // verus!
