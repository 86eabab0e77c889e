use attestation_server::id_block::{parse_id_block_data, IdBlockParseError, ID_AUTH_LEN, ID_BLOCK_LEN};
use attestation_server::report::{parse_attestation_report, AttestationReport, REPORT_LEN};
use attestation_server::snp_validate_report::{
    check_report_data, IdBlockMismatch, ReportVerificationError,
};
use base64::Engine;

fn encode(bytes: &[u8]) -> Vec<u8> {
    base64::engine::general_purpose::STANDARD
        .encode(bytes)
        .into_bytes()
}

fn sample_blocks() -> (Vec<u8>, Vec<u8>) {
    let mut id_block = vec![0u8; ID_BLOCK_LEN];
    id_block[48] = 0xAA; // family id
    id_block[64] = 0xBB; // image id
    id_block[84] = 9; // guest svn
    let mut id_auth = vec![0u8; ID_AUTH_LEN];
    for i in 0..1028 {
        id_auth[0x240 + i] = (i % 251) as u8; // id public key
        id_auth[0x880 + i] = (i % 241) as u8; // author public key
    }
    (id_block, id_auth)
}

fn report_matching(id_block: &[u8], id_auth: &[u8]) -> AttestationReport {
    let mut raw = vec![0u8; REPORT_LEN];
    raw[0x04] = id_block[84]; // guest svn
    raw[0x10..0x20].copy_from_slice(&id_block[48..64]); // family id
    raw[0x20..0x30].copy_from_slice(&id_block[64..80]); // image id
    let id_key_digest = openssl::sha::sha384(&id_auth[0x240..0x240 + 1028]);
    let author_key_digest = openssl::sha::sha384(&id_auth[0x880..0x880 + 1028]);
    raw[0xE0..0x110].copy_from_slice(&id_key_digest);
    raw[0x110..0x140].copy_from_slice(&author_key_digest);
    parse_attestation_report(&raw).unwrap()
}

#[test]
fn parse_id_block_data_reads_both_structures() {
    let (id_block, id_auth) = sample_blocks();
    let (parsed_block, parsed_auth, rd) =
        parse_id_block_data(&encode(&id_block), &encode(&id_auth)).unwrap();
    assert_eq!(parsed_block.guest_svn, 9);
    assert_eq!(parsed_block.family_id[0], 0xAA);
    assert_eq!(parsed_block.image_id[0], 0xBB);
    assert_eq!(parsed_auth.id_pubkey, &id_auth[0x240..0x240 + 1028]);
    assert_eq!(parsed_auth.author_pub_key, &id_auth[0x880..0x880 + 1028]);
    assert_eq!(
        rd.id_key_digest,
        openssl::sha::sha384(&id_auth[0x240..0x240 + 1028])
    );
    assert_eq!(
        rd.author_key_digest,
        openssl::sha::sha384(&id_auth[0x880..0x880 + 1028])
    );
}

#[test]
fn parse_id_block_data_rejects_bad_input() {
    let (id_block, id_auth) = sample_blocks();
    assert!(matches!(
        parse_id_block_data(b"!!not base64!!", &encode(&id_auth)),
        Err(IdBlockParseError::IdBlockEncoding)
    ));
    assert!(matches!(
        parse_id_block_data(&encode(&id_block[..40]), &encode(&id_auth)),
        Err(IdBlockParseError::IdBlockFormat)
    ));
    assert!(matches!(
        parse_id_block_data(&encode(&id_block), b"@@@"),
        Err(IdBlockParseError::IdAuthEncoding)
    ));
    assert!(matches!(
        parse_id_block_data(&encode(&id_block), &encode(&id_auth[..100])),
        Err(IdBlockParseError::IdAuthFormat)
    ));
}

// A report carrying exactly what the ID block bound passes; swapping one
// byte of the author public key changes its digest and fails the binding
// on the author-key digest.
#[test]
fn id_block_binding_and_author_key_swap() {
    let (id_block, mut id_auth) = sample_blocks();
    let report = report_matching(&id_block, &id_auth);

    let (_, _, rd) = parse_id_block_data(&encode(&id_block), &encode(&id_auth)).unwrap();
    let ok = check_report_data(&report, Some(rd), None, None, None, None, None, None);
    assert!(ok.is_ok());

    id_auth[0x880 + 10] ^= 0x01;
    let (_, _, rd2) = parse_id_block_data(&encode(&id_block), &encode(&id_auth)).unwrap();
    let r = check_report_data(&report, Some(rd2), None, None, None, None, None, None);
    match r {
        Err(ReportVerificationError::InvalidIdBlock {
            source: IdBlockMismatch::AuthorKeyDigest { expected, got },
        }) => {
            assert_eq!(expected, rd2.author_key_digest);
            assert_eq!(got, report.author_key_digest);
            assert_ne!(expected, got);
        }
        other => panic!("unexpected result: {:?}", other),
    }
}

#[test]
fn id_block_guest_svn_mismatch() {
    let (id_block, id_auth) = sample_blocks();
    let mut report = report_matching(&id_block, &id_auth);
    report.guest_svn = 1234;
    let (_, _, rd) = parse_id_block_data(&encode(&id_block), &encode(&id_auth)).unwrap();
    let r = check_report_data(&report, Some(rd), None, None, None, None, None, None);
    assert!(matches!(
        r,
        Err(ReportVerificationError::InvalidIdBlock {
            source: IdBlockMismatch::GuestSvn { expected: 9, got: 1234 },
        })
    ));
}

#[test]
fn id_block_family_and_image_and_id_key_mismatches() {
    let (id_block, id_auth) = sample_blocks();
    let (_, _, rd) = parse_id_block_data(&encode(&id_block), &encode(&id_auth)).unwrap();

    let mut report = report_matching(&id_block, &id_auth);
    report.family_id[3] ^= 1;
    let r = check_report_data(&report, Some(rd), None, None, None, None, None, None);
    assert!(matches!(
        r,
        Err(ReportVerificationError::InvalidIdBlock { source: IdBlockMismatch::FamilyId { .. } })
    ));

    let mut report = report_matching(&id_block, &id_auth);
    report.image_id[3] ^= 1;
    let r = check_report_data(&report, Some(rd), None, None, None, None, None, None);
    assert!(matches!(
        r,
        Err(ReportVerificationError::InvalidIdBlock { source: IdBlockMismatch::ImageId { .. } })
    ));

    let mut report = report_matching(&id_block, &id_auth);
    report.id_key_digest[0] ^= 1;
    let r = check_report_data(&report, Some(rd), None, None, None, None, None, None);
    assert!(matches!(
        r,
        Err(ReportVerificationError::InvalidIdBlock {
            source: IdBlockMismatch::IdKeyDigest { .. }
        })
    ));
}

// Known-answer check of the digest reduction: SHA-384 of "abc" is the
// classic test vector.
#[test]
fn pubkey_digest_known_answer() {
    let auth = attestation_server::id_block::IdAuth {
        id_key_algo: 1,
        author_key_algo: 1,
        id_pubkey: b"abc".to_vec(),
        author_pub_key: b"abc".to_vec(),
    };
    let id = attestation_server::id_block::IdBlock {
        launch_digest: [0u8; 48],
        family_id: [0u8; 16],
        image_id: [0u8; 16],
        version: 1,
        guest_svn: 0,
        policy: 0x30000,
    };
    let rd = attestation_server::id_block::id_block_report_data(&id, &auth);
    let expected = hex::decode(
        "cb00753f45a35e8bb5a03d699ac65007272c32ab0eded1631a8b605a43ff5bed\
         8086072ba1e7cc2358baeca134c825a7",
    )
    .unwrap();
    assert_eq!(rd.id_key_digest.to_vec(), expected);
    assert_eq!(rd.author_key_digest.to_vec(), expected);
}
