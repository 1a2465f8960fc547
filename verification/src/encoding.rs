//! Checked text encoding at the byte level.

use vstd::prelude::*;
use vstd::utf8::valid_utf8;
use vstd::utf8::decode_utf8;

verus! {

/// Relies on core::str::from_utf8: it succeeds exactly on valid UTF-8 input,
/// and the returned slice borrows the same bytes, seen as the characters they
/// encode.
#[verifier::external_body]
pub(crate) fn bytes_as_utf8(b: &[u8]) -> (r: Option<&str>)
    ensures
        r is Some <==> valid_utf8(b@),
        r matches Some(s) ==> s@ == decode_utf8(b@),
{
    core::str::from_utf8(b).ok()
}

} // verus!
