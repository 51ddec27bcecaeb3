//! Typed failures of envelope construction and recovery.

use vstd::prelude::*;

verus! {

/// Every failure the envelope core can report.
///
/// `AuthenticationFailure` is the only error expected in normal adversarial
/// operation (wrong password, tampered bytes, or mismatched identities); the
/// others indicate malformed stored bytes, a misused decoy envelope, or a
/// fatal fault in a derivation primitive.
#[derive(Clone, Copy, Debug, PartialEq, Eq, Structural)]
pub enum ProtocolError {
    /// The keyed-expansion primitive failed (pseudorandom key too short).
    KdfError,
    /// The MAC could not be keyed; indicates a configuration bug.
    MacConstructionError,
    /// The derived seed could not be turned into a key pair.
    KeyDerivationError,
    /// The MAC did not verify: wrong password, tampered envelope, or
    /// mismatched identities, reported uniformly.
    AuthenticationFailure,
    /// Stored envelope bytes, or an identity, of the wrong length.
    SerializationError,
    /// An attempt to open a decoy (`Zero`-mode) envelope.
    IncompatibleModeError,
    /// The operating system's randomness source failed.
    RandomnessError,
    /// The password-hardening transform failed.
    SlowHashError,
}

} // verus!
