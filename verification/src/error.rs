//! What can go wrong in a session.

use vstd::prelude::*;

verus! {

/// Why a step of a session was refused.
#[derive(Clone, Copy, Debug, PartialEq, Eq, Structural)]
pub enum Error {
    /// The message does not belong to the state it was handed to.
    UnexpectedMessage,
    /// The state has no message to send.
    NoMessage,
    /// The transaction asked for does not exist in this state.
    NoTransaction,
    /// An ECDSA signature does not verify.
    BadSignature,
    /// An adaptor signature does not verify.
    BadAdaptorSignature,
    /// A puzzle's proof does not verify.
    BadProof,
    /// The blinded puzzle that came back is not the one that was sent.
    BlindingCheckFailed,
    /// A signature is not the decryption of the adaptor signature.
    RecoveryFailed,
}

} // verus!
