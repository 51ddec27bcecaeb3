//! The mathematical model of envelope construction and recovery.
//!
//! Everything the executable functions promise is stated over these spec
//! functions: the four domain-separation labels, identity resolution, the
//! associated-data order, the derived sub-keys, and the full outcome of
//! `seal` and `open` on every input.

use vstd::prelude::*;

use crate::crypto::{hkdf_expand32, hmac_sha256, public_bytes_of, scalar_bytes_of};
use crate::envelope::InnerEnvelopeMode;
use crate::errors::ProtocolError;

verus! {

/// The label `"AuthKey"`, as bytes.
pub open spec fn label_auth_key() -> Seq<u8> {
    seq![65u8, 117u8, 116u8, 104u8, 75u8, 101u8, 121u8]
}

/// The label `"ExportKey"`, as bytes.
pub open spec fn label_export_key() -> Seq<u8> {
    seq![69u8, 120u8, 112u8, 111u8, 114u8, 116u8, 75u8, 101u8, 121u8]
}

/// The label `"PrivateKey"`, as bytes.
pub open spec fn label_private_key() -> Seq<u8> {
    seq![80u8, 114u8, 105u8, 118u8, 97u8, 116u8, 101u8, 75u8, 101u8, 121u8]
}

/// The domain-separation tag `"OPAQUE-DeriveAuthKeyPair"`, as bytes.
pub open spec fn label_derive_auth_key_pair() -> Seq<u8> {
    seq![
        79u8, 80u8, 65u8, 81u8, 85u8, 69u8, 45u8, 68u8, 101u8, 114u8, 105u8, 118u8, 101u8, 65u8,
        117u8, 116u8, 104u8, 75u8, 101u8, 121u8, 80u8, 97u8, 105u8, 114u8,
    ]
}

/// `n` zero bytes.
pub open spec fn zero_bytes(n: nat) -> Seq<u8> {
    Seq::new(n, |i: int| 0u8)
}

/// A length as two big-endian bytes.
pub open spec fn u16_be(n: nat) -> Seq<u8>
    recommends
        n <= 0xFFFF,
{
    seq![(n / 256) as u8, (n % 256) as u8]
}

/// An identity as it enters the MAC: a two-byte big-endian length prefix
/// followed by the identity bytes.
pub open spec fn id_bytestring(id: Seq<u8>) -> Seq<u8>
    recommends
        id.len() <= 0xFFFF,
{
    u16_be(id.len()) + id
}

/// A caller-supplied identity, or the given public-key bytes where none was
/// supplied.
pub open spec fn resolved_id(opt: Option<Seq<u8>>, default: Seq<u8>) -> Seq<u8> {
    match opt {
        Some(id) => id,
        None => default,
    }
}

/// Both resolved identities fit the two-byte length prefix.
pub open spec fn ids_fit(
    client_id: Option<Seq<u8>>,
    server_id: Option<Seq<u8>>,
    client_pk: Seq<u8>,
    server_pk: Seq<u8>,
) -> bool {
    resolved_id(client_id, client_pk).len() <= 0xFFFF && resolved_id(
        server_id,
        server_pk,
    ).len() <= 0xFFFF
}

/// The client identity bytestring authenticated by the MAC.
pub open spec fn id_u_bytes(client_id: Option<Seq<u8>>, client_pk: Seq<u8>) -> Seq<u8> {
    id_bytestring(resolved_id(client_id, client_pk))
}

/// The server identity bytestring authenticated by the MAC.
pub open spec fn id_s_bytes(server_id: Option<Seq<u8>>, server_pk: Seq<u8>) -> Seq<u8> {
    id_bytestring(resolved_id(server_id, server_pk))
}

/// The authentication key: HKDF-Expand of the secret under `nonce ‖ "AuthKey"`.
pub open spec fn auth_key_of(key: Seq<u8>, nonce: Seq<u8>) -> Seq<u8> {
    hkdf_expand32(key, nonce + label_auth_key())
}

/// The export key: HKDF-Expand of the secret under `nonce ‖ "ExportKey"`.
pub open spec fn export_key_of(key: Seq<u8>, nonce: Seq<u8>) -> Seq<u8> {
    hkdf_expand32(key, nonce + label_export_key())
}

/// The key-pair seed: HKDF-Expand of the secret under `nonce ‖ "PrivateKey"`.
pub open spec fn keypair_seed_of(key: Seq<u8>, nonce: Seq<u8>) -> Seq<u8> {
    hkdf_expand32(key, nonce + label_private_key())
}

/// The client's private scalar bytes: the seed hashed to a scalar under the
/// tag `"OPAQUE-DeriveAuthKeyPair"`.
pub open spec fn client_sk_of(key: Seq<u8>, nonce: Seq<u8>) -> Option<Seq<u8>> {
    scalar_bytes_of(keypair_seed_of(key, nonce), label_derive_auth_key_pair())
}

/// The client's public-key bytes: the base point multiplied by that scalar.
pub open spec fn client_pk_of(key: Seq<u8>, nonce: Seq<u8>) -> Option<Seq<u8>> {
    match client_sk_of(key, nonce) {
        Some(sk) => public_bytes_of(sk),
        None => None,
    }
}

/// The message the MAC authenticates: the nonce, then the server public key,
/// then the server identity, then the client identity. This order is a
/// protocol contract; reordering it breaks interoperability.
pub open spec fn mac_input(
    nonce: Seq<u8>,
    server_pk: Seq<u8>,
    id_s: Seq<u8>,
    id_u: Seq<u8>,
) -> Seq<u8> {
    nonce + server_pk + id_s + id_u
}

/// The tag a well-formed envelope carries.
pub open spec fn envelope_mac(
    key: Seq<u8>,
    nonce: Seq<u8>,
    server_pk: Seq<u8>,
    id_u: Seq<u8>,
    id_s: Seq<u8>,
) -> Seq<u8> {
    hmac_sha256(auth_key_of(key, nonce), mac_input(nonce, server_pk, id_s, id_u))
}

/// What a successful `seal` yields: the tag stored in the envelope, the
/// derived client public key, and the export key.
pub ghost struct SealedModel {
    pub mac: Seq<u8>,
    pub client_pk: Seq<u8>,
    pub export_key: Seq<u8>,
}

/// What a successful `open` yields.
pub ghost struct OpenedModel {
    pub client_sk: Seq<u8>,
    pub client_pk: Seq<u8>,
    pub export_key: Seq<u8>,
    pub id_u: Seq<u8>,
    pub id_s: Seq<u8>,
}

/// The outcome of sealing with a fixed nonce, for every input: which error
/// comes back on which input, and the exact sealed values otherwise.
pub open spec fn seal_outcome(
    key: Seq<u8>,
    nonce: Seq<u8>,
    server_pk: Seq<u8>,
    client_id: Option<Seq<u8>>,
    server_id: Option<Seq<u8>>,
) -> Result<SealedModel, ProtocolError> {
    if key.len() < 32 {
        Err(ProtocolError::KdfError)
    } else if !(client_sk_of(key, nonce) is Some) {
        Err(ProtocolError::KeyDerivationError)
    } else if !(client_pk_of(key, nonce) is Some) {
        Err(ProtocolError::KeyDerivationError)
    } else {
        let pk = client_pk_of(key, nonce).unwrap();
        if !ids_fit(client_id, server_id, pk, server_pk) {
            Err(ProtocolError::SerializationError)
        } else {
            Ok(
                SealedModel {
                    mac: envelope_mac(
                        key,
                        nonce,
                        server_pk,
                        id_u_bytes(client_id, pk),
                        id_s_bytes(server_id, server_pk),
                    ),
                    client_pk: pk,
                    export_key: export_key_of(key, nonce),
                },
            )
        }
    }
}

/// The outcome of opening an envelope, for every input: a decoy envelope is
/// always incompatible, derivation failures surface as such, and otherwise
/// recovery succeeds exactly where the stored tag equals the recomputed one.
pub open spec fn open_outcome(
    mode: InnerEnvelopeMode,
    nonce: Seq<u8>,
    mac: Seq<u8>,
    key: Seq<u8>,
    server_pk: Seq<u8>,
    client_id: Option<Seq<u8>>,
    server_id: Option<Seq<u8>>,
) -> Result<OpenedModel, ProtocolError> {
    if mode == InnerEnvelopeMode::Zero {
        Err(ProtocolError::IncompatibleModeError)
    } else if key.len() < 32 {
        Err(ProtocolError::KdfError)
    } else if !(client_sk_of(key, nonce) is Some) {
        Err(ProtocolError::KeyDerivationError)
    } else if !(client_pk_of(key, nonce) is Some) {
        Err(ProtocolError::KeyDerivationError)
    } else {
        let sk = client_sk_of(key, nonce).unwrap();
        let pk = client_pk_of(key, nonce).unwrap();
        if !ids_fit(client_id, server_id, pk, server_pk) {
            Err(ProtocolError::SerializationError)
        } else {
            let id_u = id_u_bytes(client_id, pk);
            let id_s = id_s_bytes(server_id, server_pk);
            if mac == envelope_mac(key, nonce, server_pk, id_u, id_s) {
                Ok(
                    OpenedModel {
                        client_sk: sk,
                        client_pk: pk,
                        export_key: export_key_of(key, nonce),
                        id_u: id_u,
                        id_s: id_s,
                    },
                )
            } else {
                Err(ProtocolError::AuthenticationFailure)
            }
        }
    }
}

} // verus!
