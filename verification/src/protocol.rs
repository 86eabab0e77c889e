//! The two-phase attestation-and-injection protocol: the attester's state
//! machine and the key-agreement steps on both ends.
//!
//! The attester is serial by design: one provisioning at a time, Phase 1
//! before Phase 2, enforced by the state the machine carries.  The
//! ephemeral private key lives only inside `SecretInjectionParams`; every
//! path out of the awaiting state consumes it.

use vstd::prelude::*;

use crate::req_resp_ds::{aead_dec, aead_enc, spec_aead_enc, CryptoError, WrappedDiskKey};
use crate::snp_attestation::{spec_report_data_bytes, ReportData};

verus! {

#[verifier::external_type_specification]
#[verifier::external_body]
pub struct ExEphemeralPrivateKey(ring::agreement::EphemeralPrivateKey);

/// Relies on ring's `EphemeralPrivateKey::generate` for X25519 with the
/// system CSPRNG.  The key is freshly drawn; nothing is promised of its
/// value.
#[verifier::external_body]
fn x25519_generate() -> (r: Option<ring::agreement::EphemeralPrivateKey>) {
    let rng = ring::rand::SystemRandom::new();
    ring::agreement::EphemeralPrivateKey::generate(&ring::agreement::X25519, &rng).ok()
}

/// Relies on ring's `EphemeralPrivateKey::compute_public_key`: an X25519
/// public key is 32 bytes.
#[verifier::external_body]
fn x25519_public_key(key: &ring::agreement::EphemeralPrivateKey) -> (r: Option<[u8; 32]>) {
    key.compute_public_key().ok()?.as_ref().try_into().ok()
}

/// Relies on ring's `agree_ephemeral` for X25519: it consumes the private
/// key and hands the closure the raw 32-byte shared secret.  It rejects a
/// peer key whose scalar product is the all-zero secret — a point of small
/// order — so the call can fail on a hostile peer key; the failure becomes
/// `None`.
#[verifier::external_body]
pub fn x25519_agree(
    my_private_key: ring::agreement::EphemeralPrivateKey,
    peer_public_key: &[u8; 32],
) -> (r: Option<Vec<u8>>)
    ensures
        r matches Some(s) ==> s@.len() == 32,
{
    let peer = ring::agreement::UnparsedPublicKey::new(&ring::agreement::X25519, *peer_public_key);
    ring::agreement::agree_ephemeral(my_private_key, &peer, |secret: &[u8]| secret.to_vec()).ok()
}

/// What the attester keeps between sending the report and receiving the
/// wrapped key: the session nonce and its ephemeral private key.
pub struct SecretInjectionParams {
    pub nonce: u64,
    pub eph_server_dh_key: ring::agreement::EphemeralPrivateKey,
}

/// The attester's state: ready for a fresh session, or holding the
/// ephemeral key of one session awaiting its Phase-2 request.
pub enum ServerState {
    Ready,
    WaitingForSecretInjection(SecretInjectionParams),
}

/// A Phase-1 or Phase-2 request as the surrounding server has parsed it,
/// or a reset.
pub enum ServerEvent {
    Reset,
    Phase1 { nonce: u64 },
    Phase2 { wrapped_key: WrappedDiskKey },
}

/// What the surrounding server must do next.
pub enum ServerAction {
    /// Answer the reset with an acknowledgement.
    AckReset,
    /// Ask the report oracle for a report carrying these 64 bytes and send
    /// the report to the verifier.
    SendReport { report_data: [u8; 64] },
    /// Write the recovered disk key and shut the server down.
    WriteKeyAndExit { disk_key: Vec<u8> },
    /// Report the failure and carry on.
    Fail,
}

/// The 64 report-data bytes carry this nonce and some 32-byte public key.
pub open spec fn spec_binds_nonce(nonce: u64, report_data: Seq<u8>) -> bool {
    exists|pk: Seq<u8>|
        pk.len() == 32 && report_data == #[trigger] spec_report_data_bytes(nonce, pk)
}

/// `sealed` is the sealing of `disk_key` under some 32-byte shared secret
/// for the session `nonce`.
pub open spec fn spec_sealed_for_session(nonce: u64, sealed: Seq<u8>, disk_key: Seq<u8>) -> bool {
    exists|shared: Seq<u8>|
        shared.len() == 32 && #[trigger] spec_aead_enc(shared, nonce, disk_key) == sealed
}

/// Phase-1 core: draws the session's ephemeral X25519 keypair and binds
/// the nonce and the public key into the report-data the firmware must
/// echo.  Fails only if the system's randomness source does.
pub fn phase1_prepare(nonce: u64) -> (r: Option<([u8; 64], SecretInjectionParams)>)
    ensures
        r matches Some((report_data, params)) ==> params.nonce == nonce && spec_binds_nonce(
            nonce,
            report_data@,
        ),
{
    let key = match x25519_generate() {
        Some(k) => k,
        None => {
            return None;
        },
    };
    let public_key = match x25519_public_key(&key) {
        Some(p) => p,
        None => {
            return None;
        },
    };
    let report_data = ReportData::new(nonce, public_key).into_bytes();
    proof {
        assert(report_data@ == spec_report_data_bytes(nonce, public_key@));
        assert(spec_binds_nonce(nonce, report_data@));
    }
    Some((report_data, SecretInjectionParams { nonce, eph_server_dh_key: key }))
}

/// Phase-2 core: derives the shared secret from the stored ephemeral key
/// and the verifier's public key, and opens the wrapped disk key.  The
/// session state is consumed: the ephemeral key does not survive the call,
/// whether it succeeds or fails.  A peer key the key agreement rejects
/// fails the unwrap the same way a bad ciphertext does.
pub fn phase2_unwrap_key(params: SecretInjectionParams, wrapped_key: WrappedDiskKey) -> (r: Result<
    Vec<u8>,
    CryptoError,
>)
    ensures
        r matches Ok(disk_key) ==> spec_sealed_for_session(
            params.nonce,
            wrapped_key.wrapped_disk_key@,
            disk_key@,
        ),
        r matches Err(e) ==> e is AeadDecrypt,
{
    let shared_secret = match x25519_agree(params.eph_server_dh_key, &wrapped_key.client_public_key) {
        Some(s) => s,
        None => {
            return Err(CryptoError::AeadDecrypt);
        },
    };
    let r = aead_dec(shared_secret.as_slice(), params.nonce, wrapped_key.wrapped_disk_key);
    proof {
        if r is Ok {
            assert(spec_aead_enc(shared_secret@, params.nonce, r->Ok_0@)
                == wrapped_key.wrapped_disk_key@);
        }
    }
    r
}

/// One step of the attester's machine: from a state and a parsed request
/// to the action owed and the next state.  A reset always returns to
/// `Ready`; a failed Phase 2 returns to `Ready` so another verifier may
/// try; the ephemeral key of an abandoned session is discarded.
pub fn server_step(state: ServerState, event: ServerEvent) -> (r: (ServerAction, ServerState))
    ensures
        event is Reset ==> r.0 is AckReset && r.1 is Ready,
        state is Ready ==> (event matches ServerEvent::Phase1 { nonce } ==> match r.0 {
            ServerAction::SendReport { report_data } => {
                &&& r.1 matches ServerState::WaitingForSecretInjection(params)
                    && params.nonce == nonce
                &&& spec_binds_nonce(nonce, report_data@)
            },
            ServerAction::Fail => r.1 is Ready,
            _ => false,
        }),
        state is WaitingForSecretInjection ==> (event is Phase2 ==> match r.0 {
            ServerAction::WriteKeyAndExit { disk_key } => spec_sealed_for_session(
                state->0.nonce,
                event->Phase2_wrapped_key.wrapped_disk_key@,
                disk_key@,
            ),
            ServerAction::Fail => r.1 is Ready,
            _ => false,
        }),
        state is Ready && event is Phase2 ==> r.0 is Fail && r.1 is Ready,
        state is WaitingForSecretInjection && event is Phase1 ==> r.0 is Fail && r.1 is Ready,
{
    match event {
        ServerEvent::Reset => (ServerAction::AckReset, ServerState::Ready),
        ServerEvent::Phase1 { nonce } => match state {
            ServerState::Ready => match phase1_prepare(nonce) {
                Some((report_data, params)) => (
                    ServerAction::SendReport { report_data },
                    ServerState::WaitingForSecretInjection(params),
                ),
                None => (ServerAction::Fail, ServerState::Ready),
            },
            ServerState::WaitingForSecretInjection(_) => (ServerAction::Fail, ServerState::Ready),
        },
        ServerEvent::Phase2 { wrapped_key } => match state {
            ServerState::Ready => (ServerAction::Fail, ServerState::Ready),
            ServerState::WaitingForSecretInjection(params) => {
                match phase2_unwrap_key(params, wrapped_key) {
                    Ok(disk_key) => (
                        ServerAction::WriteKeyAndExit { disk_key },
                        ServerState::Ready,
                    ),
                    Err(_) => (ServerAction::Fail, ServerState::Ready),
                }
            },
        },
    }
}

/// Verifier-side Phase-2 step, run only after the report has validated:
/// reads the attester's public key out of the report data, draws the
/// verifier's own ephemeral keypair, and seals the disk key under the
/// agreed secret.  The wrapped key is the sealing of the disk key and
/// nothing else; the disk key itself never leaves unsealed.
pub fn wrap_disk_key(report_data: &[u8; 64], nonce: u64, disk_key: &[u8]) -> (r: Option<
    WrappedDiskKey,
>)
    ensures
        r matches Some(w) ==> {
            &&& spec_sealed_for_session(nonce, w.wrapped_disk_key@, disk_key@)
            &&& w.wrapped_disk_key@.len() == disk_key@.len() + 16
        },
        disk_key@.len() > crate::req_resp_ds::AES_GCM_MAX_PLAINTEXT ==> r is None,
{
    let server_data = ReportData::from_bytes(report_data);
    let key = match x25519_generate() {
        Some(k) => k,
        None => {
            return None;
        },
    };
    let public_key = match x25519_public_key(&key) {
        Some(p) => p,
        None => {
            return None;
        },
    };
    let shared_secret = match x25519_agree(key, &server_data.server_public_key) {
        Some(s) => s,
        None => {
            return None;
        },
    };
    match aead_enc(shared_secret.as_slice(), nonce, disk_key) {
        Ok(wrapped) => {
            proof {
                assert(spec_aead_enc(shared_secret@, nonce, disk_key@) == wrapped@);
                assert(spec_sealed_for_session(nonce, wrapped@, disk_key@));
            }
            Some(WrappedDiskKey { wrapped_disk_key: wrapped, client_public_key: public_key })
        },
        Err(_) => None,
    }
}

} // verus!
