//! Laws relating `seal` and `open`, stated over the outcome model and proved
//! once for all inputs.

use vstd::assert_by_contradiction;
use vstd::arithmetic::div_mod::lemma_fundamental_div_mod;
use vstd::prelude::*;

use crate::envelope::InnerEnvelopeMode;
use crate::errors::ProtocolError;
use crate::model::{id_bytestring, mac_input, open_outcome, seal_outcome, SealedModel};

verus! {

/// Round trip: whenever sealing succeeds, opening the sealed envelope under
/// the same secret handle, server public key and identities succeeds too, and
/// recovers a key pair whose public half is the one `seal` returned, together
/// with the very export key `seal` produced.
pub proof fn lemma_seal_open_roundtrip(
    key: Seq<u8>,
    nonce: Seq<u8>,
    server_pk: Seq<u8>,
    client_id: Option<Seq<u8>>,
    server_id: Option<Seq<u8>>,
)
    requires
        seal_outcome(key, nonce, server_pk, client_id, server_id) is Ok,
    ensures
        ({
            let sealed = seal_outcome(key, nonce, server_pk, client_id, server_id).unwrap();
            let opened = open_outcome(
                InnerEnvelopeMode::Internal,
                nonce,
                sealed.mac,
                key,
                server_pk,
                client_id,
                server_id,
            );
            &&& opened is Ok
            &&& opened.unwrap().client_pk == sealed.client_pk
            &&& opened.unwrap().export_key == sealed.export_key
        }),
{
}

/// Tamper sensitivity: an `Internal` envelope whose tag differs anywhere
/// from the one sealing computes — a flipped bit included — is rejected as a
/// uniform authentication failure.
pub proof fn lemma_mac_tamper_rejected(
    key: Seq<u8>,
    nonce: Seq<u8>,
    mac: Seq<u8>,
    server_pk: Seq<u8>,
    client_id: Option<Seq<u8>>,
    server_id: Option<Seq<u8>>,
)
    requires
        seal_outcome(key, nonce, server_pk, client_id, server_id) is Ok,
        mac != seal_outcome(key, nonce, server_pk, client_id, server_id).unwrap().mac,
    ensures
        open_outcome(InnerEnvelopeMode::Internal, nonce, mac, key, server_pk, client_id, server_id)
            matches Err(e) && e == ProtocolError::AuthenticationFailure,
{
}

/// Dummy rejection: a `Zero`-mode envelope is never opened — whatever its
/// bytes, whatever the secret handle or identities, the outcome is the
/// incompatible-mode error.
pub proof fn lemma_dummy_rejected(
    nonce: Seq<u8>,
    mac: Seq<u8>,
    key: Seq<u8>,
    server_pk: Seq<u8>,
    client_id: Option<Seq<u8>>,
    server_id: Option<Seq<u8>>,
)
    ensures
        open_outcome(InnerEnvelopeMode::Zero, nonce, mac, key, server_pk, client_id, server_id)
            matches Err(e) && e == ProtocolError::IncompatibleModeError,
{
}

/// Determinism: the outcome of sealing — envelope tag, client public key and
/// export key alike — is a function of the secret handle, the nonce, the
/// server public key and the identities; two seals of the same inputs agree.
pub proof fn lemma_seal_deterministic(
    key: Seq<u8>,
    nonce: Seq<u8>,
    server_pk: Seq<u8>,
    client_id: Option<Seq<u8>>,
    server_id: Option<Seq<u8>>,
    r1: Result<SealedModel, ProtocolError>,
    r2: Result<SealedModel, ProtocolError>,
)
    requires
        r1 == seal_outcome(key, nonce, server_pk, client_id, server_id),
        r2 == seal_outcome(key, nonce, server_pk, client_id, server_id),
    ensures
        r1 == r2,
{
}

/// Associated-data order is load-bearing: swapping two distinct identities
/// changes the authenticated message. The length prefixes make this
/// unconditional — either the identities differ in length, and the messages
/// already differ inside the first prefix, or they have equal length and
/// differ at some byte.
pub proof fn lemma_aad_order_load_bearing(
    nonce: Seq<u8>,
    server_pk: Seq<u8>,
    raw_s: Seq<u8>,
    raw_u: Seq<u8>,
)
    requires
        raw_s != raw_u,
        raw_s.len() <= 0xFFFF,
        raw_u.len() <= 0xFFFF,
    ensures
        mac_input(nonce, server_pk, id_bytestring(raw_s), id_bytestring(raw_u)) != mac_input(
            nonce,
            server_pk,
            id_bytestring(raw_u),
            id_bytestring(raw_s),
        ),
{
    let bs = id_bytestring(raw_s);
    let bu = id_bytestring(raw_u);
    let m1 = mac_input(nonce, server_pk, bs, bu);
    let m2 = mac_input(nonce, server_pk, bu, bs);
    let base = nonce.len() + server_pk.len() as int;
    assert_by_contradiction!(m1 != m2, {
        if raw_s.len() == raw_u.len() {
            assert forall|k: int| 0 <= k < raw_s.len() implies raw_s[k] == raw_u[k] by {
                assert(m1[base + 2 + k] == raw_s[k]);
                assert(m2[base + 2 + k] == raw_u[k]);
            }
            assert(raw_s =~= raw_u);
        } else {
            lemma_fundamental_div_mod(raw_s.len() as int, 256);
            lemma_fundamental_div_mod(raw_u.len() as int, 256);
            assert(m1[base as int] == bs[0]);
            assert(m2[base as int] == bu[0]);
            assert(m1[base + 1] == bs[1]);
            assert(m2[base + 1] == bu[1]);
            assert(raw_s.len() / 256 == raw_u.len() / 256);
            assert(raw_s.len() % 256 == raw_u.len() % 256);
            assert(raw_s.len() == raw_u.len());
        }
    });
}

} // verus!
