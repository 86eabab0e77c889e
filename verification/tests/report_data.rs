use attestation_server::report::{parse_attestation_report, REPORT_LEN};
use attestation_server::snp_attestation::{mock_report, ReportData};

#[test]
fn report_data_round_trip() {
    let nonce: u64 = 0x0123456789ABCDEF;
    let pk = [0xCDu8; 32];
    let bytes: [u8; 64] = ReportData::new(nonce, pk).into_bytes();
    assert_eq!(bytes[0], 0xEF);
    assert_eq!(bytes[7], 0x01);
    assert_eq!(&bytes[8..40], &pk[..]);
    assert_eq!(&bytes[40..], &[0u8; 24][..]);
    let back = ReportData::from_bytes(&bytes);
    assert_eq!(back.nonce, nonce);
    assert_eq!(back.server_public_key, pk);
}

#[test]
fn parse_report_rejects_wrong_length() {
    assert!(parse_attestation_report(&[0u8; 100]).is_none());
    assert!(parse_attestation_report(&[0u8; 1185]).is_none());
}

#[test]
fn parse_report_reads_fields() {
    let mut raw = vec![0u8; REPORT_LEN];
    raw[0x00] = 2; // version
    raw[0x04] = 7; // guest svn
    raw[0x08..0x10].copy_from_slice(&0x30000u64.to_le_bytes());
    raw[0x10] = 0xAA; // family id
    raw[0x20] = 0xBB; // image id
    raw[0x40..0x48].copy_from_slice(&5u64.to_le_bytes());
    raw[0x50] = 0x11; // report data
    raw[0x90] = 0x22; // measurement
    raw[0xC0] = 0x33; // host data
    raw[0xE0] = 0x44; // id key digest
    raw[0x110] = 0x55; // author key digest
    raw[0x1A0] = 0x66; // chip id
    raw[0x1E0] = 1; // committed tcb: bootloader
    raw[0x1E1] = 2; // tee
    raw[0x1E6] = 3; // snp
    raw[0x1E7] = 4; // microcode
    let report = parse_attestation_report(&raw).unwrap();
    assert_eq!(report.version, 2);
    assert_eq!(report.guest_svn, 7);
    assert_eq!(report.policy, 0x30000);
    assert_eq!(report.family_id[0], 0xAA);
    assert_eq!(report.image_id[0], 0xBB);
    assert_eq!(report.plat_info, 5);
    assert_eq!(report.report_data[0], 0x11);
    assert_eq!(report.measurement[0], 0x22);
    assert_eq!(report.host_data[0], 0x33);
    assert_eq!(report.id_key_digest[0], 0x44);
    assert_eq!(report.author_key_digest[0], 0x55);
    assert_eq!(report.chip_id[0], 0x66);
    assert_eq!(report.committed_tcb.bootloader, 1);
    assert_eq!(report.committed_tcb.tee, 2);
    assert_eq!(report.committed_tcb.snp, 3);
    assert_eq!(report.committed_tcb.microcode, 4);
    assert_eq!(report.raw, raw);
}

#[test]
fn mock_report_binds_nonce_and_key() {
    let nonce: u64 = 0xDEADBEEF;
    let pk = [0x42u8; 32];
    let report = mock_report(nonce, pk);
    let rd = ReportData::from_bytes(&report.report_data);
    assert_eq!(rd.nonce, nonce);
    assert_eq!(rd.server_public_key, pk);
    assert_eq!(report.measurement, [0u8; 48]);
    assert_eq!(report.policy, 0);
    assert_eq!(report.raw.len(), REPORT_LEN);
}
