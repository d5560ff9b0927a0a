//! Base64 text of the client's credentials.

use vstd::prelude::*;

verus! {

/// The standard, padded base64 text of the UTF-8 bytes of `input`, as the
/// base64 crate produces it.
pub uninterp spec fn base64_text(input: Seq<char>) -> Seq<char>;

/// Encodes the bytes of `input` as base64.
///
/// Calls `base64::encode`, which encodes with the standard alphabet and
/// padding. The result depends on the bytes alone and is named
/// `base64_text`; nothing else is claimed of it. The call panics only if the
/// encoded length overflows `usize`, which no string in memory reaches.
#[verifier::external_body]
pub(crate) fn base64_encode(input: &str) -> (r: String)
    ensures
        r@ == base64_text(input@),
{
    base64::encode(input)
}

} // verus!
