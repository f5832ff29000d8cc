//! The closed error taxonomy of the decoder.

use vstd::prelude::*;

verus! {

/// Every way a parse can fail.  All errors are terminal for the current
/// parse attempt: no partial result is ever exposed.
#[derive(Clone, Copy, Debug, PartialEq, Eq, Structural)]
pub enum Error {
    /// Not enough bytes remained for a requested field.
    PrematureEOF,
    /// Bytes were left unconsumed where full consumption was required.
    TrailingJunk,
    /// A wrong literal constant, duplicate subpacket, disallowed subpacket
    /// kind, malformed unhashed area, or fingerprint/key-id mismatch.
    IllFormedSignature,
    /// The signature's expiration time is at or after the reference time.
    SignatureExpired,
    /// The signature's creation time is before the reference time.
    SignatureNotValidYet,
    /// A subpacket kind this decoder refuses to ignore silently.
    UnsupportedCriticalSubpacket,
    /// The wire version is neither 3 nor 4.
    UnsupportedSignatureVersion,
    /// A public-key algorithm that is structurally invalid for signatures.
    InvalidPkeyAlgorithm(u8),
    /// A public-key algorithm this decoder does not support for signatures.
    UnsupportedPkeyAlgorithm(u8),
    /// A public-key algorithm that is only valid in version-4 signatures.
    PkeyAlgorithmRequiresV4Sig(u8),
    /// A public-key algorithm code this decoder does not recognize.
    UnknownPkeyAlgorithm(u8),
    /// A hash algorithm rejected by the weak-hash policy.
    InsecureAlgorithm(i32),
    /// A hash algorithm code that is experimental or unrecognized.
    UnsupportedHashAlgorithm(i32),
    /// A multiprecision integer with a non-canonical encoding.
    BadMPI,
    /// No creation time was present in the signature.
    NoCreationTime,
}

} // verus!
