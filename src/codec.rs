//! Base64, through the base64 crate.
use vstd::prelude::*;

verus! {

/// The standard Base64 encoding, with padding, of the UTF-8 bytes of `s`.
pub uninterp spec fn base64_of(s: Seq<char>) -> Seq<char>;

/// Relies on `base64::encode`, the standard alphabet with padding.
#[verifier::external_body]
pub(crate) fn encode_base64(s: &str) -> (r: String)
    ensures
        r@ == base64_of(s@),
{
    base64::encode(s.as_bytes())
}

} // verus!
