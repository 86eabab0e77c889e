use attestation_server::protocol::{
    server_step, wrap_disk_key, ServerAction, ServerEvent, ServerState,
};
use attestation_server::req_resp_ds::WrappedDiskKey;
use attestation_server::snp_attestation::{mock_report, ReportData};
use attestation_server::snp_validate_report::{check_report_data, ReportDataCheck};

// One full provisioning round against the mock report oracle: the key the
// verifier seals is exactly the key the attester recovers.
#[test]
fn happy_path_with_mock_oracle() {
    let nonce: u64 = 0x0123456789ABCDEF;
    let disk_key = b"s3cret";

    let (action, state) = server_step(ServerState::Ready, ServerEvent::Phase1 { nonce });
    let report_data = match action {
        ServerAction::SendReport { report_data } => report_data,
        other => panic!("unexpected action: {:?}", describe(&other)),
    };
    assert!(matches!(state, ServerState::WaitingForSecretInjection(_)));

    // The report oracle echoes the report data into a signed report.
    let server_pk = ReportData::from_bytes(&report_data).server_public_key;
    let report = mock_report(nonce, server_pk);

    // The verifier checks the nonce binding before sending anything.
    let checked = check_report_data(
        &report,
        None,
        Some(0),
        None,
        Some(0),
        Some(ReportDataCheck::Nonce(nonce)),
        None,
        Some([0u8; 48]),
    );
    assert!(checked.is_ok());

    let wrapped = wrap_disk_key(&report.report_data, nonce, disk_key).unwrap();
    assert_eq!(wrapped.wrapped_disk_key.len(), disk_key.len() + 16);

    let (action, _) = server_step(state, ServerEvent::Phase2 { wrapped_key: wrapped });
    match action {
        ServerAction::WriteKeyAndExit { disk_key: recovered } => {
            assert_eq!(recovered, disk_key.to_vec());
        }
        other => panic!("unexpected action: {:?}", describe(&other)),
    }
}

// A corrupted Phase-2 ciphertext returns the attester to Ready, and a
// fresh session afterwards completes normally.
#[test]
fn reset_recovery_after_tampered_phase2() {
    let nonce1: u64 = 101;
    let (action, state) = server_step(ServerState::Ready, ServerEvent::Phase1 { nonce: nonce1 });
    let report_data = match action {
        ServerAction::SendReport { report_data } => report_data,
        _ => panic!("phase 1 failed"),
    };
    let mut wrapped = wrap_disk_key(&report_data, nonce1, b"first-key").unwrap();
    let last = wrapped.wrapped_disk_key.len() - 1;
    wrapped.wrapped_disk_key[last] ^= 0x80;

    let (action, state) = server_step(state, ServerEvent::Phase2 { wrapped_key: wrapped });
    assert!(matches!(action, ServerAction::Fail));
    assert!(matches!(state, ServerState::Ready));

    let nonce2: u64 = 202;
    let (action, state) = server_step(state, ServerEvent::Phase1 { nonce: nonce2 });
    let report_data = match action {
        ServerAction::SendReport { report_data } => report_data,
        _ => panic!("second phase 1 failed"),
    };
    let wrapped = wrap_disk_key(&report_data, nonce2, b"second-key").unwrap();
    let (action, _) = server_step(state, ServerEvent::Phase2 { wrapped_key: wrapped });
    match action {
        ServerAction::WriteKeyAndExit { disk_key } => assert_eq!(disk_key, b"second-key".to_vec()),
        _ => panic!("recovered session did not deliver the key"),
    }
}

#[test]
fn reset_returns_to_ready_from_any_state() {
    let (_, state) = server_step(ServerState::Ready, ServerEvent::Phase1 { nonce: 9 });
    assert!(matches!(state, ServerState::WaitingForSecretInjection(_)));
    let (action, state) = server_step(state, ServerEvent::Reset);
    assert!(matches!(action, ServerAction::AckReset));
    assert!(matches!(state, ServerState::Ready));

    let (action, state) = server_step(ServerState::Ready, ServerEvent::Reset);
    assert!(matches!(action, ServerAction::AckReset));
    assert!(matches!(state, ServerState::Ready));
}

#[test]
fn phase2_in_ready_is_refused() {
    let wrapped = WrappedDiskKey { wrapped_disk_key: vec![0u8; 16], client_public_key: [0u8; 32] };
    let (action, state) = server_step(ServerState::Ready, ServerEvent::Phase2 { wrapped_key: wrapped });
    assert!(matches!(action, ServerAction::Fail));
    assert!(matches!(state, ServerState::Ready));
}

#[test]
fn phase1_while_awaiting_discards_session() {
    let (_, state) = server_step(ServerState::Ready, ServerEvent::Phase1 { nonce: 1 });
    let (action, state) = server_step(state, ServerEvent::Phase1 { nonce: 2 });
    assert!(matches!(action, ServerAction::Fail));
    assert!(matches!(state, ServerState::Ready));
}

fn describe(action: &ServerAction) -> &'static str {
    match action {
        ServerAction::AckReset => "AckReset",
        ServerAction::SendReport { .. } => "SendReport",
        ServerAction::WriteKeyAndExit { .. } => "WriteKeyAndExit",
        ServerAction::Fail => "Fail",
    }
}

// An all-zero client public key is a small-order point: the key agreement
// rejects it.  The attester must fail the request cleanly and return to
// Ready rather than crash.
#[test]
fn phase2_with_small_order_client_key_fails_cleanly() {
    let (_, state) = server_step(ServerState::Ready, ServerEvent::Phase1 { nonce: 7 });
    assert!(matches!(state, ServerState::WaitingForSecretInjection(_)));
    let wrapped = WrappedDiskKey {
        wrapped_disk_key: vec![0u8; 32],
        client_public_key: [0u8; 32],
    };
    let (action, state) = server_step(state, ServerEvent::Phase2 { wrapped_key: wrapped });
    assert!(matches!(action, ServerAction::Fail));
    assert!(matches!(state, ServerState::Ready));
}

// The same point embedded in a hostile report's report-data must make the
// verifier's wrapping step fail cleanly instead of crashing.
#[test]
fn wrap_disk_key_rejects_small_order_server_key() {
    let report_data = [0u8; 64];
    assert!(wrap_disk_key(&report_data, 5, b"s3cret").is_none());
}
