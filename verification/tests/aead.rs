use attestation_server::req_resp_ds::{
    aead_dec, aead_enc, derive_keys, CounterNonceSequence, CryptoError,
};

#[test]
fn aead_round_trip() {
    let shared: Vec<u8> = (0u8..32).collect();
    let nonce: u64 = 0x0123456789ABCDEF;
    let msg = b"a disk encryption key";
    let ct = aead_enc(&shared, nonce, msg).unwrap();
    assert_eq!(ct.len(), msg.len() + 16);
    assert_ne!(&ct[..msg.len()], &msg[..]);
    let pt = aead_dec(&shared, nonce, ct).unwrap();
    assert_eq!(pt, msg.to_vec());
}

#[test]
fn aead_zero_length_plaintext() {
    let shared = vec![7u8; 32];
    let nonce: u64 = 42;
    let ct = aead_enc(&shared, nonce, b"").unwrap();
    assert_eq!(ct.len(), 16);
    let pt = aead_dec(&shared, nonce, ct).unwrap();
    assert_eq!(pt, Vec::<u8>::new());
}

#[test]
fn aead_dec_rejects_corrupted_tag() {
    let shared = vec![9u8; 32];
    let nonce: u64 = 1;
    let mut ct = aead_enc(&shared, nonce, b"s3cret").unwrap();
    let last = ct.len() - 1;
    ct[last] ^= 0x01;
    assert_eq!(aead_dec(&shared, nonce, ct), Err(CryptoError::AeadDecrypt));
}

#[test]
fn aead_dec_rejects_wrong_nonce() {
    let shared = vec![3u8; 32];
    let ct = aead_enc(&shared, 5, b"payload").unwrap();
    assert_eq!(aead_dec(&shared, 6, ct), Err(CryptoError::AeadDecrypt));
}

// The sealed bytes must be exactly what the deployed construction expects:
// HKDF-SHA512 salted with the nonce's little-endian bytes, and a GCM nonce
// that starts from the nonce's big-endian bytes.  Decrypt with ring
// directly to pin both orderings.
#[test]
fn aead_matches_deployed_construction() {
    let shared = vec![0x11u8; 32];
    let nonce: u64 = 0x0123456789ABCDEF;
    let msg = b"interop";
    let ct = aead_enc(&shared, nonce, msg).unwrap();

    let salt = ring::hkdf::Salt::new(ring::hkdf::HKDF_SHA512, &nonce.to_le_bytes());
    let prk = salt.extract(&shared);
    let info = ["aes_key".as_bytes()];
    let okm = prk.expand(&info, &ring::aead::AES_256_GCM).unwrap();
    let mut key = vec![0u8; 32];
    okm.fill(&mut key).unwrap();

    let mut nonce_bytes = [0u8; 12];
    nonce_bytes[..8].copy_from_slice(&nonce.to_be_bytes());
    let unbound = ring::aead::UnboundKey::new(&ring::aead::AES_256_GCM, &key).unwrap();
    let opening = ring::aead::LessSafeKey::new(unbound);
    let mut buf = ct.clone();
    let pt = opening
        .open_in_place(
            ring::aead::Nonce::assume_unique_for_key(nonce_bytes),
            ring::aead::Aad::empty(),
            &mut buf,
        )
        .unwrap();
    assert_eq!(pt, msg);
}

#[test]
fn derive_keys_is_deterministic_and_nonce_sensitive() {
    let shared = vec![0x22u8; 32];
    let k1 = derive_keys(&shared, 1);
    let k2 = derive_keys(&shared, 1);
    let k3 = derive_keys(&shared, 2);
    assert_eq!(k1.len(), 32);
    assert_eq!(k1, k2);
    assert_ne!(k1, k3);
}

#[test]
fn counter_nonce_sequence_advance() {
    let mut seq = CounterNonceSequence { counter: 1 };
    let n = seq.advance();
    assert_eq!(n, [0, 0, 0, 0, 0, 0, 0, 1, 0, 0, 0, 0]);
    assert_eq!(seq.counter, 2);
}
