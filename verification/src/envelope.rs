//! The envelope: construction (`seal`), recovery (`open`), the constant-shape
//! decoy (`dummy`), and the fixed-length wire form.

use vstd::prelude::*;

use crate::crypto::{
    hash_to_scalar_bytes, hkdf_expand_32, hkdf_expand_multi_32, hmac_sha256, hmac_sha256_tag,
    random_nonce32, scalar_mul_base_bytes,
};
use crate::errors::ProtocolError;
use crate::model::{
    auth_key_of, client_pk_of, client_sk_of, export_key_of, id_bytestring, id_s_bytes, id_u_bytes,
    ids_fit, label_auth_key, label_derive_auth_key_pair, label_export_key,
    label_private_key, mac_input, open_outcome, resolved_id, seal_outcome, u16_be, zero_bytes,
    OpenedModel, SealedModel,
};

verus! {

/// Length of the envelope nonce, in bytes.
pub const NONCE_LEN: usize = 32;

/// Length of the MAC tag, in bytes: the output size of SHA-256.
pub const MAC_LEN: usize = 32;

/// The mode tag of an envelope. `Internal` is the only mode this version
/// produces from wire bytes; `Zero` exists solely for the in-memory decoy
/// envelope of [`Envelope::dummy`] and is never meant to be opened.
#[derive(Clone, Copy, Debug, PartialEq, Eq, Structural)]
pub enum InnerEnvelopeMode {
    Zero,
    Internal,
}

impl InnerEnvelopeMode {
    /// The mode a wire byte denotes: only `1` (`Internal`) is ever accepted.
    pub fn try_from(x: u8) -> (r: Result<InnerEnvelopeMode, ProtocolError>)
        ensures
            x == 1 ==> r == Ok::<InnerEnvelopeMode, ProtocolError>(InnerEnvelopeMode::Internal),
            x != 1 ==> r == Err::<InnerEnvelopeMode, ProtocolError>(
                ProtocolError::SerializationError,
            ),
    {
        match x {
            1u8 => Ok(InnerEnvelopeMode::Internal),
            _ => Err(ProtocolError::SerializationError),
        }
    }
}

/// The randomized password secret: an opaque keyed-expansion handle, held as
/// the pseudorandom key that every sub-key is expanded from. Only a party
/// that knows the registered password can recompute it.
pub struct RandomizedPwdHasher {
    pub prk: Vec<u8>,
}

impl RandomizedPwdHasher {
    /// Wraps a pseudorandom key. Expansion demands at least 32 bytes; a
    /// shorter key makes every derivation fail with `KdfError`.
    pub fn new(prk: Vec<u8>) -> (r: RandomizedPwdHasher)
        ensures
            r.prk@ == prk@,
    {
        RandomizedPwdHasher { prk }
    }
}

/// Optional caller-supplied identities; where one is absent the
/// corresponding public key stands in for it.
pub struct Identifiers {
    pub client: Option<Vec<u8>>,
    pub server: Option<Vec<u8>>,
}

impl Identifiers {
    pub open spec fn client_view(self) -> Option<Seq<u8>> {
        match self.client {
            Some(v) => Some(v@),
            None => None,
        }
    }

    pub open spec fn server_view(self) -> Option<Seq<u8>> {
        match self.server {
            Some(v) => Some(v@),
            None => None,
        }
    }
}

/// The client's static key pair, as serialized scalar and point bytes.
pub struct KeyPair {
    pub private_key: Vec<u8>,
    pub public_key: Vec<u8>,
}

impl KeyPair {
    pub open spec fn wf(self) -> bool {
        self.private_key@.len() == 32 && self.public_key@.len() == 32
    }
}

/// The persisted envelope: a mode tag, a nonce, and a MAC tag. The mode is
/// never serialized.
pub struct Envelope {
    pub mode: InnerEnvelopeMode,
    pub nonce: Vec<u8>,
    pub hmac: Vec<u8>,
}

/// What `open` returns on success. Ephemeral: never persisted.
pub struct OpenedEnvelope {
    pub client_static_keypair: KeyPair,
    pub export_key: Vec<u8>,
    pub id_u: Vec<u8>,
    pub id_s: Vec<u8>,
}

impl View for OpenedEnvelope {
    type V = OpenedModel;

    open spec fn view(&self) -> OpenedModel {
        OpenedModel {
            client_sk: self.client_static_keypair.private_key@,
            client_pk: self.client_static_keypair.public_key@,
            export_key: self.export_key@,
            id_u: self.id_u@,
            id_s: self.id_s@,
        }
    }
}

/// What `open_raw` returns on success: the export key alone.
pub struct OpenedInnerEnvelope {
    pub export_key: Vec<u8>,
}

/// An `Option<Vec<u8>>` as an optional byte sequence.
pub open spec fn opt_bytes_view(opt: Option<Vec<u8>>) -> Option<Seq<u8>> {
    match opt {
        Some(v) => Some(v@),
        None => None,
    }
}

/// Appends all of `src` to `dst`.
#[verifier::loop_isolation(false)]
pub fn push_all(dst: &mut Vec<u8>, src: &Vec<u8>)
    ensures
        final(dst)@ == old(dst)@ + src@,
{
    let mut i: usize = 0;
    while i < src.len()
        invariant
            i <= src@.len(),
            dst@ == old(dst)@ + src@.subrange(0, i as int),
        decreases src@.len() - i,
    {
        dst.push(src[i]);
        i = i + 1;
        proof {
            assert(old(dst)@ + src@.subrange(0, i as int) =~= (old(dst)@ + src@.subrange(
                0,
                i - 1,
            )).push(src@[i - 1]));
        }
    }
    proof {
        assert(src@.subrange(0, src@.len() as int) =~= src@);
    }
}

/// A vector of `n` zero bytes.
#[verifier::loop_isolation(false)]
pub fn zero_vec(n: usize) -> (r: Vec<u8>)
    ensures
        r@ == zero_bytes(n as nat),
{
    let mut r: Vec<u8> = Vec::new();
    let mut i: usize = 0;
    while i < n
        invariant
            i <= n,
            r@ =~= zero_bytes(i as nat),
        decreases n - i,
    {
        r.push(0u8);
        i = i + 1;
    }
    r
}

/// Overwrites every byte with zero; the length is kept. Every secret
/// intermediate is passed through this on each exit path.
#[verifier::loop_isolation(false)]
pub fn wipe(v: &mut Vec<u8>)
    ensures
        final(v)@ == zero_bytes(old(v)@.len()),
{
    let mut i: usize = 0;
    while i < v.len()
        invariant
            i <= v@.len(),
            v@.len() == old(v)@.len(),
            forall|j: int| 0 <= j < i ==> v@[j] == 0u8,
        decreases v@.len() - i,
    {
        v.set(i, 0u8);
        i = i + 1;
    }
    proof {
        assert(v@ =~= zero_bytes(old(v)@.len()));
    }
}

/// Byte equality in constant time: no branch depends on the contents, only
/// on the (public) lengths.
#[verifier::loop_isolation(false)]
pub fn ct_eq(a: &Vec<u8>, b: &Vec<u8>) -> (r: bool)
    ensures
        r == (a@ == b@),
{
    if a.len() != b.len() {
        return false;
    }
    let mut diff: u8 = 0;
    let mut i: usize = 0;
    while i < a.len()
        invariant
            i <= a@.len(),
            a@.len() == b@.len(),
            (diff == 0) <==> (forall|j: int| 0 <= j < i ==> a@[j] == b@[j]),
        decreases a@.len() - i,
    {
        let x = a[i];
        let y = b[i];
        let prev = diff;
        diff = diff | (x ^ y);
        proof {
            assert(((prev | (x ^ y)) == 0) == (prev == 0 && x == y)) by (bit_vector);
        }
        i = i + 1;
    }
    if diff == 0 {
        proof {
            assert(a@ =~= b@);
        }
        true
    } else {
        false
    }
}

/// The label `"AuthKey"`.
fn auth_key_label() -> (r: Vec<u8>)
    ensures
        r@ == label_auth_key(),
{
    let r: Vec<u8> = vec![65u8, 117u8, 116u8, 104u8, 75u8, 101u8, 121u8];
    proof {
        assert(r@ =~= label_auth_key());
    }
    r
}

/// The label `"ExportKey"`.
fn export_key_label() -> (r: Vec<u8>)
    ensures
        r@ == label_export_key(),
{
    let r: Vec<u8> = vec![69u8, 120u8, 112u8, 111u8, 114u8, 116u8, 75u8, 101u8, 121u8];
    proof {
        assert(r@ =~= label_export_key());
    }
    r
}

/// The label `"PrivateKey"`.
fn private_key_label() -> (r: Vec<u8>)
    ensures
        r@ == label_private_key(),
{
    let r: Vec<u8> = vec![80u8, 114u8, 105u8, 118u8, 97u8, 116u8, 101u8, 75u8, 101u8, 121u8];
    proof {
        assert(r@ =~= label_private_key());
    }
    r
}

/// The domain-separation tag `"OPAQUE-DeriveAuthKeyPair"`.
fn derive_auth_key_pair_label() -> (r: Vec<u8>)
    ensures
        r@ == label_derive_auth_key_pair(),
{
    let r: Vec<u8> = vec![
        79u8, 80u8, 65u8, 81u8, 85u8, 69u8, 45u8, 68u8, 101u8, 114u8, 105u8, 118u8, 101u8, 65u8,
        117u8, 116u8, 104u8, 75u8, 101u8, 121u8, 80u8, 97u8, 105u8, 114u8,
    ];
    proof {
        assert(r@ =~= label_derive_auth_key_pair());
    }
    r
}

/// One identity as the MAC consumes it: the caller-supplied bytes, or the
/// given public key where none were supplied, behind a two-byte big-endian
/// length prefix. Rejects an identity longer than the prefix can carry.
fn serialize_identity(opt: &Option<Vec<u8>>, default: &Vec<u8>) -> (r: Result<
    Vec<u8>,
    ProtocolError,
>)
    ensures
        r is Ok <==> resolved_id(opt_bytes_view(*opt), default@).len() <= 0xFFFF,
        r matches Ok(v) ==> v@ == id_bytestring(resolved_id(opt_bytes_view(*opt), default@)),
        r is Err ==> r == Err::<Vec<u8>, ProtocolError>(ProtocolError::SerializationError),
{
    let id: &Vec<u8> = match opt {
        Some(v) => v,
        None => default,
    };
    if id.len() > 0xFFFF {
        return Err(ProtocolError::SerializationError);
    }
    let len = id.len();
    let mut out: Vec<u8> = Vec::new();
    out.push((len / 256) as u8);
    out.push((len % 256) as u8);
    push_all(&mut out, id);
    proof {
        assert(out@ =~= u16_be(len as nat) + id@);
    }
    Ok(out)
}

/// Resolves both identities against the two public keys and serializes each
/// behind its length prefix; the client identity first, then the server's.
pub fn bytestrings_from_identifiers(
    ids: &Identifiers,
    client_pk: &Vec<u8>,
    server_pk: &Vec<u8>,
) -> (r: Result<(Vec<u8>, Vec<u8>), ProtocolError>)
    ensures
        r is Ok <==> ids_fit(ids.client_view(), ids.server_view(), client_pk@, server_pk@),
        r matches Ok(p) ==> p.0@ == id_u_bytes(ids.client_view(), client_pk@) && p.1@ == id_s_bytes(
            ids.server_view(),
            server_pk@,
        ),
        r is Err ==> r == Err::<(Vec<u8>, Vec<u8>), ProtocolError>(
            ProtocolError::SerializationError,
        ),
{
    let id_u = match serialize_identity(&ids.client, client_pk) {
        Ok(v) => v,
        Err(e) => return Err(e),
    };
    let id_s = match serialize_identity(&ids.server, server_pk) {
        Ok(v) => v,
        Err(e) => return Err(e),
    };
    Ok((id_u, id_s))
}

/// The associated data the MAC authenticates after the nonce, in protocol
/// order: server public key, then server identity, then client identity.
pub fn construct_aad(id_u: &Vec<u8>, id_s: &Vec<u8>, server_s_pk: &Vec<u8>) -> (r: Vec<u8>)
    ensures
        r@ == server_s_pk@ + id_s@ + id_u@,
{
    let mut r: Vec<u8> = Vec::new();
    push_all(&mut r, server_s_pk);
    push_all(&mut r, id_s);
    push_all(&mut r, id_u);
    r
}

/// Derives the client's full static key pair from the secret handle and the
/// nonce: seed under `"PrivateKey"`, hashed to a scalar under
/// `"OPAQUE-DeriveAuthKeyPair"`, public half from the base point.
fn recover_keys_internal(key: &RandomizedPwdHasher, nonce: &Vec<u8>) -> (r: Result<
    KeyPair,
    ProtocolError,
>)
    ensures
        r is Ok <==> key.prk@.len() >= 32 && client_sk_of(key.prk@, nonce@) is Some && client_pk_of(
            key.prk@,
            nonce@,
        ) is Some,
        r matches Ok(kp) ==> kp.private_key@ == client_sk_of(key.prk@, nonce@).unwrap()
            && kp.public_key@ == client_pk_of(key.prk@, nonce@).unwrap() && kp.wf(),
        r matches Err(e) ==> e == (if key.prk@.len() < 32 {
            ProtocolError::KdfError
        } else {
            ProtocolError::KeyDerivationError
        }),
{
    let label = private_key_label();
    let mut info: Vec<u8> = Vec::new();
    push_all(&mut info, nonce);
    push_all(&mut info, &label);
    let mut seed = match hkdf_expand_32(&key.prk, &info) {
        Ok(v) => v,
        Err(e) => return Err(e),
    };
    let dst = derive_auth_key_pair_label();
    let sk = match hash_to_scalar_bytes(&seed, &dst) {
        Ok(v) => v,
        Err(e) => {
            wipe(&mut seed);
            return Err(e);
        },
    };
    wipe(&mut seed);
    let pk = match scalar_mul_base_bytes(&sk) {
        Ok(v) => v,
        Err(e) => {
            let mut sk = sk;
            wipe(&mut sk);
            return Err(e);
        },
    };
    Ok(KeyPair { private_key: sk, public_key: pk })
}

/// Derives the key pair as `recover_keys_internal` does — the derivations are
/// one and the same function — and keeps only the public half, wiping the
/// private scalar.
fn build_inner_envelope_internal(key: &RandomizedPwdHasher, nonce: &Vec<u8>) -> (r: Result<
    Vec<u8>,
    ProtocolError,
>)
    ensures
        r is Ok <==> key.prk@.len() >= 32 && client_sk_of(key.prk@, nonce@) is Some && client_pk_of(
            key.prk@,
            nonce@,
        ) is Some,
        r matches Ok(pk) ==> pk@ == client_pk_of(key.prk@, nonce@).unwrap() && pk@.len() == 32,
        r matches Err(e) ==> e == (if key.prk@.len() < 32 {
            ProtocolError::KdfError
        } else {
            ProtocolError::KeyDerivationError
        }),
{
    let kp = match recover_keys_internal(key, nonce) {
        Ok(kp) => kp,
        Err(e) => return Err(e),
    };
    let mut sk = kp.private_key;
    wipe(&mut sk);
    Ok(kp.public_key)
}

/// The raw authentication key, exposed so tests can hold the derivation
/// against an independent computation; the production paths never hand this
/// value out.
pub fn derive_auth_key(key: &RandomizedPwdHasher, nonce: &Vec<u8>) -> (r: Result<
    Vec<u8>,
    ProtocolError,
>)
    ensures
        r is Ok <==> key.prk@.len() >= 32,
        r matches Ok(k) ==> k@ == auth_key_of(key.prk@, nonce@) && k@.len() == 32,
        r is Err ==> r == Err::<Vec<u8>, ProtocolError>(ProtocolError::KdfError),
{
    let label = auth_key_label();
    let mut info: Vec<u8> = Vec::new();
    push_all(&mut info, nonce);
    push_all(&mut info, &label);
    hkdf_expand_32(&key.prk, &info)
}

impl Envelope {
    /// A well-formed envelope: nonce and tag of their fixed lengths.
    pub open spec fn wf(self) -> bool {
        self.nonce@.len() == NONCE_LEN && self.hmac@.len() == MAC_LEN
    }

    /// Seals with a freshly sampled 32-byte nonce, the only source of
    /// randomness. On success returns the envelope, the derived client
    /// public key, and the export key; on any derivation failure, nothing.
    pub fn seal(key: &RandomizedPwdHasher, server_s_pk: &Vec<u8>, ids: &Identifiers) -> (r: Result<
        (Envelope, Vec<u8>, Vec<u8>),
        ProtocolError,
    >)
        ensures
            r matches Ok(p) ==> p.0.mode == InnerEnvelopeMode::Internal && p.0.wf()
                && seal_outcome(
                key.prk@,
                p.0.nonce@,
                server_s_pk@,
                ids.client_view(),
                ids.server_view(),
            ) == Ok::<SealedModel, ProtocolError>(
                SealedModel { mac: p.0.hmac@, client_pk: p.1@, export_key: p.2@ },
            ),
            r matches Err(e) ==> e == ProtocolError::RandomnessError || e == ProtocolError::KdfError
                || e == ProtocolError::KeyDerivationError || e == ProtocolError::SerializationError,
            key.prk@.len() < 32 ==> r is Err,
    {
        let nonce = match random_nonce32() {
            Ok(n) => n,
            Err(e) => return Err(e),
        };
        Envelope::seal_with_nonce(key, nonce, server_s_pk, ids)
    }

    /// Seals with a caller-fixed nonce: deterministic in every argument, as
    /// the outcome model states. The nonce is the only thing `seal` adds.
    pub fn seal_with_nonce(
        key: &RandomizedPwdHasher,
        nonce: Vec<u8>,
        server_s_pk: &Vec<u8>,
        ids: &Identifiers,
    ) -> (r: Result<(Envelope, Vec<u8>, Vec<u8>), ProtocolError>)
        requires
            nonce@.len() == NONCE_LEN,
        ensures
            (match seal_outcome(
                key.prk@,
                nonce@,
                server_s_pk@,
                ids.client_view(),
                ids.server_view(),
            ) {
                Ok(m) => r matches Ok(p) && p.0.mode == InnerEnvelopeMode::Internal && p.0.nonce@
                    == nonce@ && p.0.hmac@ == m.mac && p.0.wf() && p.1@ == m.client_pk && p.2@
                    == m.export_key,
                Err(e) => r == Err::<(Envelope, Vec<u8>, Vec<u8>), ProtocolError>(e),
            }),
    {
        let client_s_pk = match build_inner_envelope_internal(key, &nonce) {
            Ok(pk) => pk,
            Err(e) => return Err(e),
        };
        let (id_u, id_s) = match bytestrings_from_identifiers(ids, &client_s_pk, server_s_pk) {
            Ok(p) => p,
            Err(e) => return Err(e),
        };
        let aad = construct_aad(&id_u, &id_s, server_s_pk);
        proof {
            assert(nonce@ + aad@ =~= mac_input(nonce@, server_s_pk@, id_s@, id_u@));
        }
        let (envelope, export_key) = match Envelope::seal_raw(
            key,
            nonce,
            &aad,
            InnerEnvelopeMode::Internal,
        ) {
            Ok(p) => p,
            Err(e) => return Err(e),
        };
        Ok((envelope, client_s_pk, export_key))
    }

    /// Keys the MAC from the secret handle and authenticates
    /// `nonce ‖ aad` under it; the mode is stored as given, never checked
    /// here. The authentication key is derived through the multi-part info
    /// shape, the export key alongside it.
    pub fn seal_raw(
        key: &RandomizedPwdHasher,
        nonce: Vec<u8>,
        aad: &Vec<u8>,
        mode: InnerEnvelopeMode,
    ) -> (r: Result<(Envelope, Vec<u8>), ProtocolError>)
        requires
            nonce@.len() == NONCE_LEN,
        ensures
            r is Ok <==> key.prk@.len() >= 32,
            r matches Ok(p) ==> p.0.mode == mode && p.0.nonce@ == nonce@ && p.0.hmac@
                == hmac_sha256(auth_key_of(key.prk@, nonce@), nonce@ + aad@) && p.0.wf() && p.1@
                == export_key_of(key.prk@, nonce@),
            r is Err ==> r == Err::<(Envelope, Vec<u8>), ProtocolError>(ProtocolError::KdfError),
    {
        let auth_label = auth_key_label();
        let export_label = export_key_label();
        let mut hmac_key = match hkdf_expand_multi_32(&key.prk, &nonce, &auth_label) {
            Ok(v) => v,
            Err(e) => return Err(e),
        };
        let export_key = match hkdf_expand_multi_32(&key.prk, &nonce, &export_label) {
            Ok(v) => v,
            Err(e) => {
                wipe(&mut hmac_key);
                return Err(e);
            },
        };
        let mut msg: Vec<u8> = Vec::new();
        push_all(&mut msg, &nonce);
        push_all(&mut msg, aad);
        let tag = match hmac_sha256_tag(&hmac_key, &msg) {
            Ok(t) => t,
            Err(e) => {
                wipe(&mut hmac_key);
                let mut export_key = export_key;
                wipe(&mut export_key);
                return Err(e);
            },
        };
        wipe(&mut hmac_key);
        Ok((Envelope { mode, nonce, hmac: tag }, export_key))
    }

    /// Opens a stored envelope with the secret handle recomputed from the
    /// presented password. One uniform `AuthenticationFailure` covers wrong
    /// password, tampered bytes and mismatched identities alike; nothing
    /// derived on a failed attempt is returned.
    pub fn open(
        &self,
        key: &RandomizedPwdHasher,
        server_s_pk: &Vec<u8>,
        optional_ids: &Identifiers,
    ) -> (r: Result<OpenedEnvelope, ProtocolError>)
        ensures
            (match open_outcome(
                self.mode,
                self.nonce@,
                self.hmac@,
                key.prk@,
                server_s_pk@,
                optional_ids.client_view(),
                optional_ids.server_view(),
            ) {
                Ok(m) => r matches Ok(o) && o@ == m,
                Err(e) => r == Err::<OpenedEnvelope, ProtocolError>(e),
            }),
    {
        match self.mode {
            InnerEnvelopeMode::Zero => {
                return Err(ProtocolError::IncompatibleModeError);
            },
            InnerEnvelopeMode::Internal => {},
        }
        let client_static_keypair = match recover_keys_internal(key, &self.nonce) {
            Ok(kp) => kp,
            Err(e) => return Err(e),
        };
        let (id_u, id_s) = match bytestrings_from_identifiers(
            optional_ids,
            &client_static_keypair.public_key,
            server_s_pk,
        ) {
            Ok(p) => p,
            Err(e) => {
                let mut sk = client_static_keypair.private_key;
                wipe(&mut sk);
                return Err(e);
            },
        };
        let aad = construct_aad(&id_u, &id_s, server_s_pk);
        proof {
            assert(self.nonce@ + aad@ =~= mac_input(self.nonce@, server_s_pk@, id_s@, id_u@));
        }
        let opened = match self.open_raw(key, &aad) {
            Ok(o) => o,
            Err(e) => {
                let mut sk = client_static_keypair.private_key;
                wipe(&mut sk);
                return Err(e);
            },
        };
        Ok(
            OpenedEnvelope {
                client_static_keypair,
                export_key: opened.export_key,
                id_u,
                id_s,
            },
        )
    }

    /// Recomputes the MAC over `nonce ‖ aad` — deriving the authentication
    /// key through the single concatenated info shape — and compares it to
    /// the stored tag in constant time. Succeeds exactly where key and
    /// associated data are those the envelope was sealed under.
    pub fn open_raw(&self, key: &RandomizedPwdHasher, aad: &Vec<u8>) -> (r: Result<
        OpenedInnerEnvelope,
        ProtocolError,
    >)
        ensures
            key.prk@.len() < 32 ==> r == Err::<OpenedInnerEnvelope, ProtocolError>(
                ProtocolError::KdfError,
            ),
            key.prk@.len() >= 32 && self.hmac@ == hmac_sha256(
                auth_key_of(key.prk@, self.nonce@),
                self.nonce@ + aad@,
            ) ==> (r matches Ok(o) && o.export_key@ == export_key_of(key.prk@, self.nonce@)),
            key.prk@.len() >= 32 && self.hmac@ != hmac_sha256(
                auth_key_of(key.prk@, self.nonce@),
                self.nonce@ + aad@,
            ) ==> r == Err::<OpenedInnerEnvelope, ProtocolError>(ProtocolError::AuthenticationFailure),
    {
        let auth_label = auth_key_label();
        let export_label = export_key_label();
        let mut info_auth: Vec<u8> = Vec::new();
        push_all(&mut info_auth, &self.nonce);
        push_all(&mut info_auth, &auth_label);
        let mut info_export: Vec<u8> = Vec::new();
        push_all(&mut info_export, &self.nonce);
        push_all(&mut info_export, &export_label);
        let mut hmac_key = match hkdf_expand_32(&key.prk, &info_auth) {
            Ok(v) => v,
            Err(e) => return Err(e),
        };
        let mut export_key = match hkdf_expand_32(&key.prk, &info_export) {
            Ok(v) => v,
            Err(e) => {
                wipe(&mut hmac_key);
                return Err(e);
            },
        };
        let mut msg: Vec<u8> = Vec::new();
        push_all(&mut msg, &self.nonce);
        push_all(&mut msg, aad);
        let tag = match hmac_sha256_tag(&hmac_key, &msg) {
            Ok(t) => t,
            Err(e) => {
                wipe(&mut hmac_key);
                wipe(&mut export_key);
                return Err(e);
            },
        };
        wipe(&mut hmac_key);
        let matched = ct_eq(&tag, &self.hmac);
        if matched {
            Ok(OpenedInnerEnvelope { export_key })
        } else {
            wipe(&mut export_key);
            Err(ProtocolError::AuthenticationFailure)
        }
    }

    /// The decoy: a `Zero`-mode envelope of all-zero nonce and tag, with the
    /// same serialized length as a real one. Returned by the enclosing login
    /// flow for unknown accounts; opening it always fails.
    pub fn dummy() -> (r: Envelope)
        ensures
            r.mode == InnerEnvelopeMode::Zero,
            r.nonce@ == zero_bytes(NONCE_LEN as nat),
            r.hmac@ == zero_bytes(MAC_LEN as nat),
            r.wf(),
    {
        Envelope {
            mode: InnerEnvelopeMode::Zero,
            nonce: zero_vec(NONCE_LEN),
            hmac: zero_vec(MAC_LEN),
        }
    }

    /// The MAC key length, in bytes.
    pub fn hmac_key_size() -> (r: usize)
        ensures
            r == MAC_LEN,
    {
        MAC_LEN
    }

    /// The serialized length of every envelope: nonce plus tag.
    pub fn len() -> (r: usize)
        ensures
            r == NONCE_LEN + MAC_LEN,
    {
        NONCE_LEN + MAC_LEN
    }

    /// The wire form: `nonce ‖ mac`, with no length prefixes and no mode.
    pub fn serialize(&self) -> (r: Vec<u8>)
        ensures
            r@ == self.nonce@ + self.hmac@,
            self.wf() ==> r@.len() == NONCE_LEN + MAC_LEN,
    {
        let mut r: Vec<u8> = Vec::new();
        push_all(&mut r, &self.nonce);
        push_all(&mut r, &self.hmac);
        r
    }

    /// Reads an envelope back from wire bytes: the first 32 bytes are the
    /// nonce, the remainder must be exactly the tag length, and the mode is
    /// always reconstructed as `Internal`.
    #[verifier::loop_isolation(false)]
    pub fn deserialize(bytes: &Vec<u8>) -> (r: Result<Envelope, ProtocolError>)
        ensures
            r is Ok <==> bytes@.len() == NONCE_LEN + MAC_LEN,
            r matches Ok(env) ==> env.mode == InnerEnvelopeMode::Internal && env.nonce@
                == bytes@.subrange(0, NONCE_LEN as int) && env.hmac@ == bytes@.subrange(
                NONCE_LEN as int,
                (NONCE_LEN + MAC_LEN) as int,
            ) && env.wf(),
            r is Err ==> r == Err::<Envelope, ProtocolError>(ProtocolError::SerializationError),
    {
        if bytes.len() < NONCE_LEN {
            return Err(ProtocolError::SerializationError);
        }
        let mut nonce: Vec<u8> = Vec::new();
        let mut i: usize = 0;
        while i < NONCE_LEN
            invariant
                i <= NONCE_LEN,
                nonce@ =~= bytes@.subrange(0, i as int),
            decreases NONCE_LEN - i,
        {
            nonce.push(bytes[i]);
            i = i + 1;
        }
        if bytes.len() - NONCE_LEN != MAC_LEN {
            return Err(ProtocolError::SerializationError);
        }
        let mut hmac: Vec<u8> = Vec::new();
        while i < bytes.len()
            invariant
                NONCE_LEN <= i <= bytes@.len(),
                bytes@.len() == NONCE_LEN + MAC_LEN,
                hmac@ =~= bytes@.subrange(NONCE_LEN as int, i as int),
            decreases bytes@.len() - i,
        {
            hmac.push(bytes[i]);
            i = i + 1;
        }
        Ok(Envelope { mode: InnerEnvelopeMode::Internal, nonce, hmac })
    }
}

} // verus!
