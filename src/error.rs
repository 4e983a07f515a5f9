use vstd::prelude::*;

verus! {

/// Why a session operation did not succeed.
#[derive(Clone, Debug, PartialEq, Eq)]
pub enum SignError {
    /// The operation is not valid in the session's current round; nothing changed.
    InvalidState,
    /// Malformed caller-supplied data (a digest of the wrong length, an engine reply
    /// of the wrong shape); nothing changed.
    InvalidInput,
    /// The protocol engine rejected the round; the session is now failed for good.
    ProtocolError(String),
    /// A serialized session or an inbound batch could not be decoded.
    DecodeError,
    /// The session has already failed.
    SessionFailed,
}

} // verus!
