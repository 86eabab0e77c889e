//! Request and response payloads of the two-phase exchange, and the
//! authenticated transport of the disk key: HKDF-SHA512 key derivation and
//! AES-256-GCM sealing and opening.
//!
//! Two orderings are deliberate and must both be kept for compatibility:
//! the KDF salt is the nonce's little-endian bytes, while the GCM nonce
//! starts from the nonce's big-endian bytes.

use vstd::prelude::*;

use crate::encoding::{spec_u64_be, spec_u64_le, u64_to_be_bytes, u64_to_le_bytes};

verus! {

/// Phase-1 request: the verifier's freshly drawn nonce.
pub struct AttestationRequest {
    pub nonce: u64,
}

/// Phase-2 request: the sealed disk key and the verifier's ephemeral
/// X25519 public key.
pub struct WrappedDiskKey {
    pub wrapped_disk_key: Vec<u8>,
    pub client_public_key: [u8; 32],
}

/// A failure while sealing or opening the transported key.
#[derive(Clone, Copy, Debug, PartialEq, Eq, Structural)]
pub enum CryptoError {
    AeadEncrypt,
    AeadDecrypt,
}

/// Longest plaintext AES-256-GCM accepts.
pub const AES_GCM_MAX_PLAINTEXT: u64 = 68719476704;

/// The 32-byte AES key that HKDF-SHA512 expands from this salt and input
/// key material under the fixed info string `aes_key`.  A fixed function of
/// its inputs.
pub uninterp spec fn hkdf_sha512_aes256(salt: Seq<u8>, ikm: Seq<u8>) -> Seq<u8>;

/// What AES-256-GCM sealing returns for this key, nonce and plaintext,
/// with the 16-byte tag appended.  A fixed function of its inputs.
pub uninterp spec fn aes256_gcm_seal(key: Seq<u8>, nonce12: Seq<u8>, plaintext: Seq<u8>) -> Seq<u8>;

/// Relies on ring's HKDF-SHA512 (`Salt::extract`, `Prk::expand`, `fill`)
/// with info `aes_key`: the output is a fixed function of salt and input
/// key material, and expanding 32 bytes cannot fail for SHA-512.
#[verifier::external_body]
fn hkdf_sha512_derive(salt: &[u8; 8], ikm: &[u8]) -> (r: Vec<u8>)
    ensures
        r@ == hkdf_sha512_aes256(salt@, ikm@),
        r@.len() == 32,
{
    let salt = ring::hkdf::Salt::new(ring::hkdf::HKDF_SHA512, salt);
    let prk = salt.extract(ikm);
    let info = ["aes_key".as_bytes()];
    let okm = prk.expand(&info, &ring::aead::AES_256_GCM).expect("HKDF-SHA512 expands 32 bytes");
    let mut key = vec![0u8; ring::aead::AES_256_GCM.key_len()];
    okm.fill(&mut key).expect("fill matches the expanded length");
    key
}

/// Relies on ring's AES-256-GCM (`LessSafeKey::seal_in_place_separate_tag`):
/// sealing is deterministic in key, nonce and plaintext, appends the
/// 16-byte tag, accepts any plaintext up to the algorithm's length limit,
/// and seals distinct plaintexts to distinct outputs under one key and
/// nonce (opening is well-defined).
#[verifier::external_body]
fn aes_gcm_seal(key: &[u8], nonce12: &[u8; 12], plaintext: &[u8]) -> (r: Vec<u8>)
    requires
        key@.len() == 32,
        plaintext@.len() <= AES_GCM_MAX_PLAINTEXT,
    ensures
        r@ == aes256_gcm_seal(key@, nonce12@, plaintext@),
        r@.len() == plaintext@.len() + 16,
        forall|m: Seq<u8>|
            m.len() <= AES_GCM_MAX_PLAINTEXT && #[trigger] aes256_gcm_seal(key@, nonce12@, m)
                == r@ ==> m == plaintext@,
{
    let unbound = ring::aead::UnboundKey::new(&ring::aead::AES_256_GCM, key).expect(
        "32 bytes is the AES-256 key length",
    );
    let sealing = ring::aead::LessSafeKey::new(unbound);
    let mut buf = plaintext.to_vec();
    let tag = sealing.seal_in_place_separate_tag(
        ring::aead::Nonce::assume_unique_for_key(*nonce12),
        ring::aead::Aad::empty(),
        &mut buf,
    ).expect("plaintext is within the length limit");
    buf.extend_from_slice(tag.as_ref());
    buf
}

/// Relies on ring's AES-256-GCM (`LessSafeKey::open_in_place`): opening
/// succeeds exactly on an output of sealing under the same key and nonce,
/// and then returns the plaintext that was sealed.
#[verifier::external_body]
fn aes_gcm_open(key: &[u8], nonce12: &[u8; 12], ct: &[u8]) -> (r: Option<Vec<u8>>)
    requires
        key@.len() == 32,
    ensures
        r matches Some(m) ==> {
            &&& m@.len() + 16 == ct@.len()
            &&& m@.len() <= AES_GCM_MAX_PLAINTEXT
            &&& aes256_gcm_seal(key@, nonce12@, m@) == ct@
            &&& forall|m2: Seq<u8>|
                m2.len() <= AES_GCM_MAX_PLAINTEXT && #[trigger] aes256_gcm_seal(
                    key@,
                    nonce12@,
                    m2,
                ) == ct@ ==> m2 == m@
        },
        r is None ==> !(exists|m: Seq<u8>|
            m.len() <= AES_GCM_MAX_PLAINTEXT && #[trigger] aes256_gcm_seal(key@, nonce12@, m)
                == ct@),
{
    let unbound = ring::aead::UnboundKey::new(&ring::aead::AES_256_GCM, key).ok()?;
    let opening = ring::aead::LessSafeKey::new(unbound);
    let mut buf = ct.to_vec();
    let plaintext = opening.open_in_place(
        ring::aead::Nonce::assume_unique_for_key(*nonce12),
        ring::aead::Aad::empty(),
        &mut buf,
    ).ok()?;
    Some(plaintext.to_vec())
}

/// The session's content-encryption key: HKDF-SHA512 over the shared
/// secret, salted with the nonce's little-endian bytes.
pub open spec fn spec_session_key(shared_secret: Seq<u8>, nonce: u64) -> Seq<u8> {
    hkdf_sha512_aes256(spec_u64_le(nonce), shared_secret)
}

/// The 12-byte GCM nonce for a counter value: its big-endian bytes
/// followed by four zero bytes.
pub open spec fn spec_gcm_nonce_bytes(counter: u64) -> Seq<u8> {
    spec_u64_be(counter) + seq![0u8, 0u8, 0u8, 0u8]
}

/// What sealing the plaintext for this session returns: AES-256-GCM under
/// the derived session key, with the session's initial counter nonce.
pub open spec fn spec_aead_enc(shared_secret: Seq<u8>, nonce: u64, plaintext: Seq<u8>) -> Seq<u8> {
    aes256_gcm_seal(
        spec_session_key(shared_secret, nonce),
        spec_gcm_nonce_bytes(nonce),
        plaintext,
    )
}

/// Derives the 32-byte AES-256 content-encryption key both ends share.
pub fn derive_keys(shared_secret: &[u8], nonce_from_report: u64) -> (r: Vec<u8>)
    ensures
        r@ == spec_session_key(shared_secret@, nonce_from_report),
        r@.len() == 32,
{
    let salt = u64_to_le_bytes(nonce_from_report);
    hkdf_sha512_derive(&salt, shared_secret)
}

/// Counter sequence for GCM nonces, starting from the session nonce.  One
/// session seals exactly one message, so only the initial value is ever
/// used; the counter itself is kept for wire compatibility.
pub struct CounterNonceSequence {
    pub counter: u64,
}

impl CounterNonceSequence {
    /// Yields the current counter's 12-byte nonce and steps the counter.
    pub fn advance(&mut self) -> (r: [u8; 12])
        ensures
            r@ == spec_gcm_nonce_bytes(old(self).counter),
            final(self).counter == if old(self).counter == u64::MAX {
                0u64
            } else {
                (old(self).counter + 1) as u64
            },
    {
        let be = u64_to_be_bytes(self.counter);
        let r: [u8; 12] = [be[0], be[1], be[2], be[3], be[4], be[5], be[6], be[7], 0, 0, 0, 0];
        self.counter = self.counter.wrapping_add(1);
        assert(r@ =~= spec_u64_be(old(self).counter) + seq![0u8, 0u8, 0u8, 0u8]);
        r
    }
}

/// Seals the plaintext for the session: the result is the ciphertext with
/// the 16-byte tag appended.  Succeeds exactly when the plaintext is
/// within AES-GCM's length limit.
pub fn aead_enc(shared_secret: &[u8], nonce_from_report: u64, plaintext: &[u8]) -> (r: Result<
    Vec<u8>,
    CryptoError,
>)
    ensures
        r is Ok <==> plaintext@.len() <= AES_GCM_MAX_PLAINTEXT,
        r matches Ok(ct) ==> {
            &&& ct@ == spec_aead_enc(shared_secret@, nonce_from_report, plaintext@)
            &&& ct@.len() == plaintext@.len() + 16
        },
        r matches Err(e) ==> e is AeadEncrypt,
{
    if plaintext.len() as u64 > AES_GCM_MAX_PLAINTEXT {
        return Err(CryptoError::AeadEncrypt);
    }
    let key = derive_keys(shared_secret, nonce_from_report);
    let mut nonce_sequence = CounterNonceSequence { counter: nonce_from_report };
    let nonce12 = nonce_sequence.advance();
    Ok(aes_gcm_seal(key.as_slice(), &nonce12, plaintext))
}

/// Everything `aead_dec` promises of its result: it succeeds exactly
/// when the input is the sealing of some plaintext for the session, and
/// then returns that plaintext and nothing else.
pub open spec fn spec_aead_dec_post(
    shared_secret: Seq<u8>,
    nonce: u64,
    cipher_text_with_tag: Seq<u8>,
    r: Result<Vec<u8>, CryptoError>,
) -> bool {
    &&& (r is Ok <==> exists|m: Seq<u8>|
        m.len() <= AES_GCM_MAX_PLAINTEXT && #[trigger] spec_aead_enc(shared_secret, nonce, m)
            == cipher_text_with_tag)
    &&& (r matches Ok(m) ==> {
        &&& m@.len() + 16 == cipher_text_with_tag.len()
        &&& spec_aead_enc(shared_secret, nonce, m@) == cipher_text_with_tag
        &&& forall|m2: Seq<u8>|
            m2.len() <= AES_GCM_MAX_PLAINTEXT && #[trigger] spec_aead_enc(
                shared_secret,
                nonce,
                m2,
            ) == cipher_text_with_tag ==> m2 == m@
    })
    &&& (r matches Err(e) ==> e is AeadDecrypt)
}

/// Opens a sealed disk key.  Succeeds exactly when the input is the
/// sealing of some plaintext for this session, and then returns that
/// plaintext and nothing else (see `spec_aead_dec_post`).
pub fn aead_dec(
    shared_secret: &[u8],
    nonce_from_report: u64,
    cipher_text_with_tag: Vec<u8>,
) -> (r: Result<Vec<u8>, CryptoError>)
    ensures
        spec_aead_dec_post(shared_secret@, nonce_from_report, cipher_text_with_tag@, r),
{
    let key = derive_keys(shared_secret, nonce_from_report);
    let mut nonce_sequence = CounterNonceSequence { counter: nonce_from_report };
    let nonce12 = nonce_sequence.advance();
    match aes_gcm_open(key.as_slice(), &nonce12, cipher_text_with_tag.as_slice()) {
        Some(plaintext) => {
            proof {
                assert(spec_aead_enc(shared_secret@, nonce_from_report, plaintext@)
                    == cipher_text_with_tag@);
                assert forall|m2: Seq<u8>|
                    m2.len() <= AES_GCM_MAX_PLAINTEXT && #[trigger] spec_aead_enc(
                        shared_secret@,
                        nonce_from_report,
                        m2,
                    ) == cipher_text_with_tag@ implies m2 == plaintext@ by {
                    assert(aes256_gcm_seal(key@, nonce12@, m2) == cipher_text_with_tag@);
                }
            }
            Ok(plaintext)
        },
        None => {
            proof {
                assert forall|m2: Seq<u8>|
                    m2.len() <= AES_GCM_MAX_PLAINTEXT && #[trigger] spec_aead_enc(
                        shared_secret@,
                        nonce_from_report,
                        m2,
                    ) == cipher_text_with_tag@ implies false by {
                    assert(aes256_gcm_seal(key@, nonce12@, m2) == cipher_text_with_tag@);
                }
            }
            Err(CryptoError::AeadDecrypt)
        },
    }
}

/// Round-trip law: opening the sealing of a plaintext under the same
/// shared secret and session nonce returns exactly that plaintext.
/// Stated over `aead_dec`'s contract: any result it is allowed to return
/// for `aead_enc`'s output is `Ok` of the plaintext that was sealed.
pub proof fn lemma_aead_round_trip(
    shared_secret: Seq<u8>,
    nonce: u64,
    plaintext: Seq<u8>,
    r: Result<Vec<u8>, CryptoError>,
)
    requires
        plaintext.len() <= AES_GCM_MAX_PLAINTEXT,
        spec_aead_dec_post(shared_secret, nonce, spec_aead_enc(shared_secret, nonce, plaintext), r),
    ensures
        r matches Ok(recovered) && recovered@ == plaintext,
{
    let ct = spec_aead_enc(shared_secret, nonce, plaintext);
    assert(spec_aead_enc(shared_secret, nonce, plaintext) == ct);
    assert(r is Ok);
    let recovered = r->Ok_0;
    assert(recovered@ == plaintext);
}

} // verus!
