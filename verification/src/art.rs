//! Artwork handling: resolving a file-scheme art URL to a local path and
//! encoding loaded bytes into the text-safe transport form. Reading the
//! file itself is the caller's business.

use vstd::prelude::*;

use crate::text::{spec_after_prefix, spec_starts_with, strip_prefix_str};

verus! {

/// What the standard padded base64 alphabet makes of a byte sequence.
pub uninterp spec fn base64_of(bytes: Seq<u8>) -> Seq<char>;

/// Relies on base64's `STANDARD` engine (`Engine::encode`): encodes
/// arbitrary octets as padded base64, a function of the bytes alone, four
/// output characters for every three input bytes rounded up. The engine
/// panics when that output length overflows `usize`, so such inputs are
/// excluded here.
#[verifier::external_body]
fn b64_encode(bytes: &Vec<u8>) -> (r: String)
    requires
        4 * ((bytes@.len() + 2) / 3) <= usize::MAX,
    ensures
        r@ == base64_of(bytes@),
        r@.len() == 4 * ((bytes@.len() + 2) / 3),
{
    base64::engine::Engine::encode(&base64::engine::general_purpose::STANDARD, bytes.as_slice())
}

/// Encode loaded artwork bytes for transport.
pub fn encode_art(bytes: &Vec<u8>) -> (r: String)
    requires
        4 * ((bytes@.len() + 2) / 3) <= usize::MAX,
    ensures
        r@ == base64_of(bytes@),
        r@.len() == 4 * ((bytes@.len() + 2) / 3),
{
    b64_encode(bytes)
}

/// The local filesystem path behind an art URL: the remainder of a
/// file-scheme URL. Unsupported schemes yield no artwork rather than an
/// error.
pub fn art_path_from_url(url: &str) -> (r: Option<String>)
    ensures
        match r {
            Some(p) => spec_starts_with(url@, "file://"@) && p@ == spec_after_prefix(
                url@,
                "file://"@,
            ),
            None => !spec_starts_with(url@, "file://"@),
        },
{
    strip_prefix_str(url, "file://")
}

} // verus!
