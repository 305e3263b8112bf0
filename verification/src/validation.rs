use vstd::prelude::*;

verus! {

/// A ledger identifier (DID) is the base58 form of 16 bytes, which is
/// 21 or 22 characters long.  Only the length is checked here; a bad
/// charset surfaces later, wherever the identifier is base58-decoded.
pub open spec fn spec_did_len_ok(s: Seq<char>) -> bool {
    s.len() == 21 || s.len() == 22
}

/// Length check for a submitter identifier.
pub fn validate_did_len(did: &str) -> (r: bool)
    ensures
        r == spec_did_len_ok(did@),
{
    let n = did.unicode_len();
    n == 21 || n == 22
}

} // verus!
