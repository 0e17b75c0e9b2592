//! Caller identities, held as the bytes of the host's principal.
use vstd::prelude::*;

verus! {

/// The bytes of the anonymous principal, the identity of an unauthenticated caller.
pub open spec fn anonymous_bytes() -> Seq<u8> {
    seq![4u8]
}

/// Relies on candid's `Principal::try_from_slice` and `Principal::anonymous`:
/// a principal holds at most 29 bytes, compares by its bytes, and the anonymous
/// principal is the single byte 4.
#[verifier::external_body]
pub(crate) fn is_anonymous(bytes: &Vec<u8>) -> (r: bool)
    ensures
        r == (bytes@ == anonymous_bytes()),
{
    match candid::Principal::try_from_slice(bytes.as_slice()) {
        Ok(p) => p == candid::Principal::anonymous(),
        Err(_) => false,
    }
}

} // verus!
