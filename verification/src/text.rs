use vstd::prelude::*;
use vstd::utf8::{decode_utf8, valid_utf8};

verus! {

/// Relies on `core::str::from_utf8`: it succeeds exactly on byte slices
/// that are valid UTF-8, and then returns the text those bytes encode.
#[verifier::external_body]
pub(crate) fn str_of_bytes(bytes: &[u8]) -> (r: Option<&str>)
    ensures
        r is Some <==> valid_utf8(bytes@),
        r matches Some(s) ==> s@ == decode_utf8(bytes@),
{
    core::str::from_utf8(bytes).ok()
}

} // verus!
