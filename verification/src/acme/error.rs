//! What can end an exchange with the authority.

use vstd::prelude::*;

verus! {

/// The header that a response had to carry and did not.
#[derive(Clone, Copy, Debug, PartialEq, Eq, Structural)]
pub enum ProtocolViolation {
    /// No `replay-nonce` header.
    MissingNonce,
    /// No `location` header.
    MissingLocation,
    /// An answer came that the flow had not asked for.
    OutOfOrder,
}

/// The step of signing that failed.
#[derive(Clone, Copy, Debug, PartialEq, Eq, Structural)]
pub enum SigningFailure {
    /// The header or the payload could not be written as JSON text.
    Serialization,
    /// The key service did not hand out the public key.
    PublicKey,
    /// The key service did not sign.
    Signer,
}

/// Why an exchange, and with it the whole issuance, was given up.
#[derive(Clone, Copy, Debug, PartialEq, Eq, Structural)]
pub enum AcmeError {
    /// The transport failed.
    Network,
    /// A response lacked a header that it must carry.
    Protocol(ProtocolViolation),
    /// A response body was not of the expected shape.
    Decode,
    /// The authority offered no HTTP-01 challenge.
    UnsupportedChallenge,
    /// A request could not be signed.
    Signing(SigningFailure),
}

} // verus!
