//! Trusted boundary to the cryptographic primitives.
//!
//! Every function here is an `external_body` wrapper around one operation of
//! an outside crate. The result of each deterministic primitive is given a
//! name by an uninterpreted spec function; the wrappers' contracts tie the
//! runtime result to that name, and all verified reasoning goes through the
//! names alone.

use vstd::prelude::*;

use crate::errors::ProtocolError;

verus! {

/// HKDF-Expand (RFC 5869) with SHA-256 of a pseudorandom key under an info
/// string, to 32 bytes of output; a pure function of `(prk, info)`.
pub uninterp spec fn hkdf_expand32(prk: Seq<u8>, info: Seq<u8>) -> Seq<u8>;

/// HMAC-SHA-256 of a message under a key; a pure function of both.
pub uninterp spec fn hmac_sha256(key: Seq<u8>, msg: Seq<u8>) -> Seq<u8>;

/// The serialized Ristretto255 scalar that voprf's `HashToScalar` derives
/// from a seed under a domain-separation tag, or `None` where derivation
/// fails; a pure function of `(seed, dst)`.
pub uninterp spec fn scalar_bytes_of(seed: Seq<u8>, dst: Seq<u8>) -> Option<Seq<u8>>;

/// The serialized Ristretto255 point obtained by multiplying the base point
/// with the scalar these bytes encode, or `None` where the bytes are not a
/// canonical non-zero scalar; a pure function of the scalar bytes.
pub uninterp spec fn public_bytes_of(scalar_bytes: Seq<u8>) -> Option<Seq<u8>>;

/// The 32-byte scrypt digest of a password under a salt and the parameters
/// `(log_n, r, p)`; a pure function of all five.
pub uninterp spec fn scrypt_of(password: Seq<u8>, salt: Seq<u8>, log_n: u8, r: u32, p: u32) -> Seq<u8>;

/// Relies on `hkdf::Hkdf::<Sha256>::from_prk` and `expand`: HKDF-Expand of
/// `prk` under `info`, deterministic in both. `from_prk` rejects exactly the
/// keys shorter than the hash output (32 bytes), and `expand` accepts any
/// requested length up to `255 * 32`, so a 32-byte output never fails.
#[verifier::external_body]
pub(crate) fn hkdf_expand_32(prk: &Vec<u8>, info: &Vec<u8>) -> (r: Result<Vec<u8>, ProtocolError>)
    ensures
        r is Ok <==> prk@.len() >= 32,
        r matches Ok(okm) ==> okm@ == hkdf_expand32(prk@, info@) && okm@.len() == 32,
        r matches Err(e) ==> e == ProtocolError::KdfError,
{
    let hk = match hkdf::Hkdf::<sha2::Sha256>::from_prk(prk) {
        Ok(hk) => hk,
        Err(_) => return Err(ProtocolError::KdfError),
    };
    let mut okm = vec![0u8; 32];
    match hk.expand(info, &mut okm) {
        Ok(()) => Ok(okm),
        Err(_) => Err(ProtocolError::KdfError),
    }
}

/// Relies on `hkdf::Hkdf::<Sha256>::expand_multi_info`, documented as
/// equivalent to `expand` on the concatenation of the info components; the
/// same bound on the pseudorandom key length applies.
#[verifier::external_body]
pub(crate) fn hkdf_expand_multi_32(prk: &Vec<u8>, info1: &Vec<u8>, info2: &Vec<u8>) -> (r: Result<
    Vec<u8>,
    ProtocolError,
>)
    ensures
        r is Ok <==> prk@.len() >= 32,
        r matches Ok(okm) ==> okm@ == hkdf_expand32(prk@, info1@ + info2@) && okm@.len() == 32,
        r matches Err(e) ==> e == ProtocolError::KdfError,
{
    let hk = match hkdf::Hkdf::<sha2::Sha256>::from_prk(prk) {
        Ok(hk) => hk,
        Err(_) => return Err(ProtocolError::KdfError),
    };
    let mut okm = vec![0u8; 32];
    match hk.expand_multi_info(&[info1.as_slice(), info2.as_slice()], &mut okm) {
        Ok(()) => Ok(okm),
        Err(_) => Err(ProtocolError::KdfError),
    }
}

/// Relies on `hmac::Hmac::<Sha256>`: keys a MAC state, absorbs the message,
/// and returns the 32-byte tag, deterministic in `(key, msg)`.
/// `new_from_slice` pads or hashes the key and accepts every key length, so
/// construction never fails.
#[verifier::external_body]
pub(crate) fn hmac_sha256_tag(key: &Vec<u8>, msg: &Vec<u8>) -> (r: Result<Vec<u8>, ProtocolError>)
    ensures
        r is Ok,
        r matches Ok(t) ==> t@ == hmac_sha256(key@, msg@) && t@.len() == 32,
{
    let mut mac = match <hmac::Hmac<sha2::Sha256> as hmac::Mac>::new_from_slice(key) {
        Ok(mac) => mac,
        Err(_) => return Err(ProtocolError::MacConstructionError),
    };
    hmac::Mac::update(&mut mac, msg);
    Ok(hmac::Mac::finalize(mac).into_bytes().to_vec())
}

/// Relies on voprf's `Ristretto255` group: `hash_to_scalar` (RFC 9497
/// `HashToScalar` with SHA-512) on the seed under the domain-separation tag,
/// followed by `serialize_scalar`; deterministic in `(seed, dst)`, and it
/// fails exactly where the underlying message expansion rejects its input.
#[verifier::external_body]
pub(crate) fn hash_to_scalar_bytes(seed: &Vec<u8>, dst: &Vec<u8>) -> (r: Result<
    Vec<u8>,
    ProtocolError,
>)
    ensures
        r is Ok <==> scalar_bytes_of(seed@, dst@) is Some,
        r matches Ok(sk) ==> Some(sk@) == scalar_bytes_of(seed@, dst@) && sk@.len() == 32,
        r matches Err(e) ==> e == ProtocolError::KeyDerivationError,
{
    let scalar = match <voprf::Ristretto255 as voprf::Group>::hash_to_scalar::<sha2::Sha512>(
        &[seed.as_slice()],
        &[dst.as_slice()],
    ) {
        Ok(scalar) => scalar,
        Err(_) => return Err(ProtocolError::KeyDerivationError),
    };
    Ok(<voprf::Ristretto255 as voprf::Group>::serialize_scalar(scalar).to_vec())
}

/// Relies on voprf's `Ristretto255` group: `deserialize_scalar` (which
/// rejects non-canonical or zero bytes), multiplication of the base element
/// by the scalar, and `serialize_elem`; deterministic in the scalar bytes.
#[verifier::external_body]
pub(crate) fn scalar_mul_base_bytes(scalar_bytes: &Vec<u8>) -> (r: Result<Vec<u8>, ProtocolError>)
    ensures
        r is Ok <==> public_bytes_of(scalar_bytes@) is Some,
        r matches Ok(pk) ==> Some(pk@) == public_bytes_of(scalar_bytes@) && pk@.len() == 32,
        r matches Err(e) ==> e == ProtocolError::KeyDerivationError,
{
    let scalar = match <voprf::Ristretto255 as voprf::Group>::deserialize_scalar(scalar_bytes) {
        Ok(scalar) => scalar,
        Err(_) => return Err(ProtocolError::KeyDerivationError),
    };
    let point = <voprf::Ristretto255 as voprf::Group>::base_elem() * &scalar;
    Ok(<voprf::Ristretto255 as voprf::Group>::serialize_elem(point).to_vec())
}

/// Relies on `rand::rngs::OsRng::try_fill_bytes`: fills 32 bytes from the
/// operating system's randomness source. Nothing is assumed of the bytes
/// beyond their count.
#[verifier::external_body]
pub(crate) fn random_nonce32() -> (r: Result<Vec<u8>, ProtocolError>)
    ensures
        r matches Ok(nonce) ==> nonce@.len() == 32,
        r matches Err(e) ==> e == ProtocolError::RandomnessError,
{
    let mut nonce = vec![0u8; 32];
    match rand::RngCore::try_fill_bytes(&mut rand::rngs::OsRng, &mut nonce) {
        Ok(()) => Ok(nonce),
        Err(_) => Err(ProtocolError::RandomnessError),
    }
}

/// Relies on `scrypt::Params::new` and `scrypt::scrypt`: the memory-hard
/// scrypt transform to 32 bytes of output, deterministic in all five
/// arguments. The bounds on `r` and `p` keep `Params::new`'s internal `r * p`
/// product from overflowing, and parameters within `(15, 8, 8)` pass every
/// check of `Params::new` while touching at most 32 MiB, so those succeed.
#[verifier::external_body]
pub(crate) fn scrypt_kdf(password: &Vec<u8>, salt: &Vec<u8>, log_n: u8, r: u32, p: u32) -> (res:
    Result<Vec<u8>, ProtocolError>)
    requires
        r <= 0xFFFF,
        p <= 0xFFFF,
    ensures
        res matches Ok(out) ==> out@ == scrypt_of(password@, salt@, log_n, r, p) && out@.len()
            == 32,
        res matches Err(e) ==> e == ProtocolError::SlowHashError,
        1 <= log_n <= 15 && 1 <= r <= 8 && 1 <= p <= 8 ==> res is Ok,
{
    let params = match scrypt::Params::new(log_n, r, p) {
        Ok(params) => params,
        Err(_) => return Err(ProtocolError::SlowHashError),
    };
    let mut out = vec![0u8; 32];
    match scrypt::scrypt(password, salt, &params, &mut out) {
        Ok(()) => Ok(out),
        Err(_) => Err(ProtocolError::SlowHashError),
    }
}

} // verus!
