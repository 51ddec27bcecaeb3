use opaque_envelope::errors::ProtocolError;
use opaque_envelope::slow_hash::{slow_hash_scrypt, NoOpHash, SlowHash};

#[test]
fn noop_hash_returns_input() {
    let input = vec![0x5Au8; 32];
    let out = <NoOpHash as SlowHash>::hash(&input).unwrap();
    assert_eq!(out, input);
}

#[test]
fn scrypt_matches_crate() {
    let input = vec![0x5Au8; 32];
    let salt = b"pepper".to_vec();
    let out = slow_hash_scrypt(&input, &salt, 10, 8, 1).unwrap();

    let params = scrypt::Params::new(10, 8, 1).unwrap();
    let mut expected = [0u8; 32];
    scrypt::scrypt(&input, &salt, &params, &mut expected).unwrap();
    assert_eq!(out, expected.to_vec());
    assert_ne!(out, input);
}

#[test]
fn scrypt_rejects_bad_params() {
    let input = vec![1u8; 32];
    let salt = Vec::new();
    // log_n of 64 and a zero r both fail the parameter check.
    assert_eq!(
        slow_hash_scrypt(&input, &salt, 64, 8, 1).err().unwrap(),
        ProtocolError::SlowHashError
    );
    assert_eq!(
        slow_hash_scrypt(&input, &salt, 10, 0, 1).err().unwrap(),
        ProtocolError::SlowHashError
    );
    // Oversized r and p are rejected before the parameter check can overflow.
    assert_eq!(
        slow_hash_scrypt(&input, &salt, 10, 0x10000, 1).err().unwrap(),
        ProtocolError::SlowHashError
    );
}
