use vstd::prelude::*;

verus! {

/// Host-defined error codes.  The plugin mints no codes of its own: a
/// handler either returns `Success`, points at a bad positional
/// parameter, or reports a structurally or semantically invalid
/// payload.  The shell maps these to the host's integer values.
#[derive(Clone, Copy, PartialEq, Eq, Structural, Debug)]
pub enum ErrorCode {
    Success,
    CommonInvalidParam2,
    CommonInvalidParam3,
    CommonInvalidParam4,
    CommonInvalidParam5,
    CommonInvalidParam6,
    CommonInvalidStructure,
    CommonInvalidState,
}

/// Why a payment address failed to decode.
#[derive(Clone, Copy, PartialEq, Eq, Structural, Debug)]
pub enum AddressError {
    MissingPrefix,
    BadBase58,
    BadLength,
    BadChecksum,
}

} // verus!
