use opaque_envelope::envelope::{Envelope, Identifiers, InnerEnvelopeMode, RandomizedPwdHasher};
use opaque_envelope::envelope::{bytestrings_from_identifiers, construct_aad, derive_auth_key};
use opaque_envelope::errors::ProtocolError;
use hmac::Mac;
use voprf::Group;

fn prk(byte: u8) -> RandomizedPwdHasher {
    RandomizedPwdHasher::new(vec![byte; 32])
}

fn nonce_0_to_31() -> Vec<u8> {
    let mut n = Vec::new();
    for i in 0..32u8 {
        n.push(i);
    }
    n
}

fn no_ids() -> Identifiers {
    Identifiers { client: None, server: None }
}

fn named_ids() -> Identifiers {
    Identifiers { client: Some(b"alice".to_vec()), server: Some(b"server".to_vec()) }
}

#[test]
fn seal_open_roundtrip_with_fixed_nonce() {
    // Example scenario: handle H1, nonce 0x00..0x1F, identities defaulting to
    // the public keys.
    let key = prk(7);
    let nonce = nonce_0_to_31();
    let server_pk = vec![9u8; 32];

    let (env, client_pk, export_key) =
        Envelope::seal_with_nonce(&key, nonce.clone(), &server_pk, &no_ids()).unwrap();
    assert_eq!(env.mode, InnerEnvelopeMode::Internal);
    assert_eq!(env.nonce, nonce);

    let bytes = env.serialize();
    assert_eq!(bytes.len(), 64);

    let env2 = Envelope::deserialize(&bytes).unwrap();
    let opened = env2.open(&key, &server_pk, &no_ids()).unwrap();
    assert_eq!(opened.client_static_keypair.public_key, client_pk);
    assert_eq!(opened.export_key, export_key);
}

#[test]
fn roundtrip_with_named_identities() {
    let key = prk(3);
    let nonce = nonce_0_to_31();
    let server_pk = vec![5u8; 32];
    let ids = named_ids();

    let (env, client_pk, export_key) =
        Envelope::seal_with_nonce(&key, nonce, &server_pk, &ids).unwrap();
    let opened = env.open(&key, &server_pk, &ids).unwrap();
    assert_eq!(opened.client_static_keypair.public_key, client_pk);
    assert_eq!(opened.export_key, export_key);
    // The recovered identities carry their two-byte length prefixes.
    assert_eq!(opened.id_u, [&[0u8, 5u8][..], b"alice"].concat());
    assert_eq!(opened.id_s, [&[0u8, 6u8][..], b"server"].concat());
}

#[test]
fn tamper_any_mac_bit_fails() {
    let key = prk(7);
    let server_pk = vec![9u8; 32];
    let (env, _, _) =
        Envelope::seal_with_nonce(&key, nonce_0_to_31(), &server_pk, &no_ids()).unwrap();
    let bytes = env.serialize();
    for bit in 0..(32 * 8) {
        let mut tampered = bytes.clone();
        tampered[32 + bit / 8] ^= 1 << (bit % 8);
        let env2 = Envelope::deserialize(&tampered).unwrap();
        let r = env2.open(&key, &server_pk, &no_ids());
        assert_eq!(r.err().unwrap(), ProtocolError::AuthenticationFailure);
    }
}

#[test]
fn tamper_nonce_bit_never_recovers_original() {
    let key = prk(7);
    let server_pk = vec![9u8; 32];
    let (env, client_pk, _) =
        Envelope::seal_with_nonce(&key, nonce_0_to_31(), &server_pk, &no_ids()).unwrap();
    let bytes = env.serialize();
    for bit in 0..(32 * 8) {
        let mut tampered = bytes.clone();
        tampered[bit / 8] ^= 1 << (bit % 8);
        let env2 = Envelope::deserialize(&tampered).unwrap();
        match env2.open(&key, &server_pk, &no_ids()) {
            Err(_) => {}
            Ok(opened) => {
                assert_ne!(opened.client_static_keypair.public_key, client_pk);
            }
        }
    }
}

#[test]
fn wrong_secret_fails_authentication() {
    let server_pk = vec![9u8; 32];
    let (env, _, _) =
        Envelope::seal_with_nonce(&prk(7), nonce_0_to_31(), &server_pk, &no_ids()).unwrap();
    let r = env.open(&prk(8), &server_pk, &no_ids());
    assert_eq!(r.err().unwrap(), ProtocolError::AuthenticationFailure);
}

#[test]
fn serialized_length_fixed() {
    assert_eq!(Envelope::len(), 64);
    let server_pk = vec![1u8; 32];
    for ids in [
        no_ids(),
        named_ids(),
        Identifiers { client: Some(vec![0xAB; 300]), server: None },
    ] {
        let (env, _, _) =
            Envelope::seal_with_nonce(&prk(2), nonce_0_to_31(), &server_pk, &ids).unwrap();
        assert_eq!(env.serialize().len(), 64);
    }
    let dummy_bytes = Envelope::dummy().serialize();
    assert_eq!(dummy_bytes.len(), 64);
    assert!(dummy_bytes.iter().all(|&b| b == 0));
}

#[test]
fn dummy_open_incompatible() {
    let dummy = Envelope::dummy();
    for byte in [0u8, 7, 255] {
        let r = dummy.open(&prk(byte), &vec![9u8; 32], &no_ids());
        assert_eq!(r.err().unwrap(), ProtocolError::IncompatibleModeError);
    }
    // Even a too-short secret handle is not reported before the mode check.
    let r = dummy.open(&RandomizedPwdHasher::new(vec![1u8; 4]), &vec![9u8; 32], &named_ids());
    assert_eq!(r.err().unwrap(), ProtocolError::IncompatibleModeError);
}

#[test]
fn seal_deterministic() {
    let server_pk = vec![4u8; 32];
    let ids = named_ids();
    let (e1, pk1, x1) =
        Envelope::seal_with_nonce(&prk(7), nonce_0_to_31(), &server_pk, &ids).unwrap();
    let (e2, pk2, x2) =
        Envelope::seal_with_nonce(&prk(7), nonce_0_to_31(), &server_pk, &ids).unwrap();
    assert_eq!(e1.serialize(), e2.serialize());
    assert_eq!(pk1, pk2);
    assert_eq!(x1, x2);
}

#[test]
fn swapped_identities_fail() {
    let key = prk(7);
    let server_pk = vec![9u8; 32];
    let ids = named_ids();
    let (env, _, _) = Envelope::seal_with_nonce(&key, nonce_0_to_31(), &server_pk, &ids).unwrap();
    let swapped = Identifiers { client: Some(b"server".to_vec()), server: Some(b"alice".to_vec()) };
    let r = env.open(&key, &server_pk, &swapped);
    assert_eq!(r.err().unwrap(), ProtocolError::AuthenticationFailure);
}

#[test]
fn swapped_aad_order_fails_raw() {
    // The raw seam: re-deriving with the identity bytestrings in the wrong
    // order must not verify.
    let key = prk(7);
    let server_pk = vec![9u8; 32];
    let client_pk = vec![13u8; 32];
    let (id_u, id_s) =
        bytestrings_from_identifiers(&named_ids(), &client_pk, &server_pk).unwrap();
    let aad = construct_aad(&id_u, &id_s, &server_pk);
    let (env, _) =
        Envelope::seal_raw(&key, nonce_0_to_31(), &aad, InnerEnvelopeMode::Internal).unwrap();

    let ok = env.open_raw(&key, &aad);
    assert!(ok.is_ok());
    let swapped_aad = construct_aad(&id_s, &id_u, &server_pk);
    let r = env.open_raw(&key, &swapped_aad);
    assert_eq!(r.err().unwrap(), ProtocolError::AuthenticationFailure);
}

#[test]
fn deserialize_rejects_wrong_lengths() {
    for len in [0usize, 16, 31, 32, 63, 65, 128] {
        let bytes = vec![0xCDu8; len];
        let r = Envelope::deserialize(&bytes);
        if len == 64 {
            assert!(r.is_ok());
        } else {
            assert_eq!(r.err().unwrap(), ProtocolError::SerializationError);
        }
    }
    let mut bytes = vec![0u8; 64];
    for (i, b) in bytes.iter_mut().enumerate() {
        *b = i as u8;
    }
    let env = Envelope::deserialize(&bytes).unwrap();
    assert_eq!(env.mode, InnerEnvelopeMode::Internal);
    assert_eq!(env.nonce, bytes[..32].to_vec());
    assert_eq!(env.hmac, bytes[32..].to_vec());
}

#[test]
fn try_from_accepts_only_internal() {
    assert_eq!(InnerEnvelopeMode::try_from(1).unwrap(), InnerEnvelopeMode::Internal);
    for x in [0u8, 2, 17, 255] {
        assert_eq!(
            InnerEnvelopeMode::try_from(x).err().unwrap(),
            ProtocolError::SerializationError
        );
    }
}

#[test]
fn identity_too_long_rejected() {
    let ids = Identifiers { client: Some(vec![0u8; 65536]), server: None };
    let r = Envelope::seal_with_nonce(&prk(7), nonce_0_to_31(), &vec![9u8; 32], &ids);
    assert_eq!(r.err().unwrap(), ProtocolError::SerializationError);
}

#[test]
fn short_prk_rejected() {
    let short = RandomizedPwdHasher::new(vec![1u8; 16]);
    let server_pk = vec![9u8; 32];
    let r = Envelope::seal_with_nonce(&short, nonce_0_to_31(), &server_pk, &no_ids());
    assert_eq!(r.err().unwrap(), ProtocolError::KdfError);

    let (env, _, _) =
        Envelope::seal_with_nonce(&prk(7), nonce_0_to_31(), &server_pk, &no_ids()).unwrap();
    let r = env.open(&short, &server_pk, &no_ids());
    assert_eq!(r.err().unwrap(), ProtocolError::KdfError);
}

#[test]
fn sealed_nonce_is_fresh_and_32_bytes() {
    let key = prk(7);
    let server_pk = vec![9u8; 32];
    let (e1, _, _) = Envelope::seal(&key, &server_pk, &no_ids()).unwrap();
    let (e2, _, _) = Envelope::seal(&key, &server_pk, &no_ids()).unwrap();
    assert_eq!(e1.nonce.len(), 32);
    assert_eq!(e2.nonce.len(), 32);
    assert_ne!(e1.nonce, e2.nonce);
    // A randomly sealed envelope opens like a fixed-nonce one.
    assert!(e1.open(&key, &server_pk, &no_ids()).is_ok());
}

#[test]
fn auth_key_matches_hkdf_both_call_shapes() {
    let key = prk(7);
    let nonce = nonce_0_to_31();
    let auth_key = derive_auth_key(&key, &nonce).unwrap();

    // Single concatenated info, as open uses it.
    let hk = hkdf::Hkdf::<sha2::Sha256>::from_prk(&vec![7u8; 32]).unwrap();
    let mut info = nonce.clone();
    info.extend_from_slice(b"AuthKey");
    let mut expected = [0u8; 32];
    hk.expand(&info, &mut expected).unwrap();
    assert_eq!(auth_key, expected.to_vec());

    // Multi-part info, as seal uses it: the same output.
    let mut expected_multi = [0u8; 32];
    hk.expand_multi_info(&[&nonce, b"AuthKey"], &mut expected_multi).unwrap();
    assert_eq!(auth_key, expected_multi.to_vec());
    assert_ne!(auth_key, vec![7u8; 32]);

    // The envelope tag is HMAC-SHA-256 under that key over
    // nonce ‖ server_pk ‖ id_s ‖ id_u, identities length-prefixed.
    let server_pk = vec![9u8; 32];
    let ids = named_ids();
    let (env, _, _) =
        Envelope::seal_with_nonce(&key, nonce.clone(), &server_pk, &ids).unwrap();
    let mut msg = nonce.clone();
    msg.extend_from_slice(&server_pk);
    msg.extend_from_slice(&[0u8, 6u8]);
    msg.extend_from_slice(b"server");
    msg.extend_from_slice(&[0u8, 5u8]);
    msg.extend_from_slice(b"alice");
    let mut mac = hmac::Hmac::<sha2::Sha256>::new_from_slice(&auth_key).unwrap();
    mac.update(&msg);
    let tag = mac.finalize().into_bytes().to_vec();
    assert_eq!(env.hmac, tag);
}

#[test]
fn client_keypair_matches_voprf_derivation() {
    let key = prk(7);
    let nonce = nonce_0_to_31();
    let server_pk = vec![9u8; 32];
    let (env, client_pk, _) =
        Envelope::seal_with_nonce(&key, nonce.clone(), &server_pk, &no_ids()).unwrap();
    let opened = env.open(&key, &server_pk, &no_ids()).unwrap();

    let hk = hkdf::Hkdf::<sha2::Sha256>::from_prk(&vec![7u8; 32]).unwrap();
    let mut info = nonce.clone();
    info.extend_from_slice(b"PrivateKey");
    let mut seed = [0u8; 32];
    hk.expand(&info, &mut seed).unwrap();

    let scalar = voprf::Ristretto255::hash_to_scalar::<sha2::Sha512>(
        &[&seed],
        &[b"OPAQUE-DeriveAuthKeyPair"],
    )
    .unwrap();
    let sk = voprf::Ristretto255::serialize_scalar(scalar).to_vec();
    let pk = voprf::Ristretto255::serialize_elem(voprf::Ristretto255::base_elem() * &scalar)
        .to_vec();
    assert_eq!(client_pk, pk);
    assert_eq!(opened.client_static_keypair.public_key, pk);
    assert_eq!(opened.client_static_keypair.private_key, sk);
    assert_ne!(sk, seed.to_vec());
}
