//! The password-hardening transform: a pluggable one-shot function from a
//! 32-byte digest to hardened bytes, with an identity instance for testing
//! and a memory-hard scrypt instance.

use vstd::prelude::*;

use crate::crypto::{scrypt_kdf, scrypt_of};
use crate::errors::ProtocolError;

verus! {

/// A slow, brute-force-resisting transform applied to password material
/// upstream of envelope derivation. Each instance fixes `hash_spec`, the
/// value its `hash` must return — or `None` where it must fail.
pub trait SlowHash {
    /// What `hash` returns on each input, or `None` where it fails.
    spec fn hash_spec(input: Seq<u8>) -> Option<Seq<u8>>;

    /// Applies the transform to a 32-byte digest.
    fn hash(input: &Vec<u8>) -> (r: Result<Vec<u8>, ProtocolError>)
        requires
            input@.len() == 32,
        ensures
            (match Self::hash_spec(input@) {
                Some(out) => r matches Ok(v) && v@ == out,
                None => r == Err::<Vec<u8>, ProtocolError>(ProtocolError::SlowHashError),
            }),
    ;
}

/// The identity transform: no hardening, for testing.
pub struct NoOpHash;

impl SlowHash for NoOpHash {
    open spec fn hash_spec(input: Seq<u8>) -> Option<Seq<u8>> {
        Some(input)
    }

    fn hash(input: &Vec<u8>) -> (r: Result<Vec<u8>, ProtocolError>) {
        let mut out: Vec<u8> = Vec::new();
        crate::envelope::push_all(&mut out, input);
        Ok(out)
    }
}

/// The scrypt parameter set carries the memory-hard instance.
#[verifier::external_type_specification]
#[verifier::external_body]
pub struct ExScryptParams(scrypt::Params);

/// The scrypt transform under a salt and explicit cost parameters, to 32
/// bytes. The parameter bounds keep the underlying parameter check from
/// overflowing; out-of-range values are rejected, never clamped.
pub fn slow_hash_scrypt(password: &Vec<u8>, salt: &Vec<u8>, log_n: u8, r: u32, p: u32) -> (res:
    Result<Vec<u8>, ProtocolError>)
    ensures
        r > 0xFFFF || p > 0xFFFF ==> res == Err::<Vec<u8>, ProtocolError>(
            ProtocolError::SlowHashError,
        ),
        res matches Ok(out) ==> out@ == scrypt_of(password@, salt@, log_n, r, p) && out@.len()
            == 32,
        res is Err ==> res == Err::<Vec<u8>, ProtocolError>(ProtocolError::SlowHashError),
        r <= 0xFFFF && p <= 0xFFFF && 1 <= log_n <= 15 && 1 <= r <= 8 && 1 <= p <= 8 ==> res is Ok,
{
    if r > 0xFFFF || p > 0xFFFF {
        return Err(ProtocolError::SlowHashError);
    }
    scrypt_kdf(password, salt, log_n, r, p)
}

impl SlowHash for scrypt::Params {
    open spec fn hash_spec(input: Seq<u8>) -> Option<Seq<u8>> {
        Some(scrypt_of(input, Seq::empty(), 15, 8, 1))
    }

    fn hash(input: &Vec<u8>) -> (r: Result<Vec<u8>, ProtocolError>) {
        let salt: Vec<u8> = Vec::new();
        match slow_hash_scrypt(input, &salt, 15, 8, 1) {
            Ok(out) => Ok(out),
            Err(e) => Err(e),
        }
    }
}

} // verus!
