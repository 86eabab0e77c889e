use attestation_server::report::TcbVersion;
use attestation_server::snp_validate_report::ProductName;
use attestation_server::vcek::{check_vcek_cert_bytes, filename_for_vcek, u8_dec, vcek_url, VcekError};

#[test]
fn filename_encodes_every_tuple_member() {
    let chip_id = [0xABu8; 64];
    let tcb = TcbVersion { bootloader: 5, tee: 0, snp: 14, microcode: 62 };
    let name = filename_for_vcek(chip_id, ProductName::Milan, &tcb);
    let expected = format!("Milan-{}-bl-5-tee-0-snp-14-ucode-62.crt", "ab".repeat(64));
    assert_eq!(name, expected);
}

#[test]
fn filenames_differ_when_any_component_differs() {
    let chip_a = [1u8; 64];
    let mut chip_b = chip_a;
    chip_b[63] = 2;
    let tcb = TcbVersion { bootloader: 1, tee: 2, snp: 3, microcode: 4 };
    let base = filename_for_vcek(chip_a, ProductName::Milan, &tcb);
    assert_ne!(base, filename_for_vcek(chip_b, ProductName::Milan, &tcb));
    assert_ne!(base, filename_for_vcek(chip_a, ProductName::Genoa, &tcb));
    let bumped = TcbVersion { microcode: 5, ..tcb };
    assert_ne!(base, filename_for_vcek(chip_a, ProductName::Milan, &bumped));
}

// The decimal components have no padding, so a tuple must never be able
// to imitate another through digit runs; these neighbours are the
// tightest cases.
#[test]
fn filenames_distinguish_adjacent_digit_runs() {
    let chip = [0u8; 64];
    let t1 = TcbVersion { bootloader: 1, tee: 23, snp: 4, microcode: 5 };
    let t2 = TcbVersion { bootloader: 12, tee: 3, snp: 4, microcode: 5 };
    assert_ne!(
        filename_for_vcek(chip, ProductName::Milan, &t1),
        filename_for_vcek(chip, ProductName::Milan, &t2)
    );
}

#[test]
fn u8_dec_renders_decimal() {
    assert_eq!(u8_dec(0), "0");
    assert_eq!(u8_dec(7), "7");
    assert_eq!(u8_dec(10), "10");
    assert_eq!(u8_dec(62), "62");
    assert_eq!(u8_dec(100), "100");
    assert_eq!(u8_dec(255), "255");
}

#[test]
fn url_matches_key_distribution_interface() {
    let mut chip_id = [0u8; 64];
    chip_id[0] = 0x01;
    chip_id[63] = 0xFF;
    let tcb = TcbVersion { bootloader: 5, tee: 0, snp: 14, microcode: 62 };
    let url = vcek_url(chip_id, ProductName::Genoa, &tcb);
    let expected = format!(
        "https://kdsintf.amd.com/vcek/v1/Genoa/{}?blSPL=5&teeSPL=0&snpSPL=14&ucodeSPL=62",
        hex::encode(chip_id)
    );
    assert_eq!(url, expected);
}

#[test]
fn certificate_bytes_are_checked_as_x509() {
    assert!(check_vcek_cert_bytes(sev::certs::snp::builtin::milan::ARK).is_ok());
    assert!(matches!(
        check_vcek_cert_bytes(b"definitely not a certificate"),
        Err(VcekError::CertificateParse)
    ));
}

#[test]
fn certificate_bytes_too_short_to_identify() {
    assert!(matches!(
        check_vcek_cert_bytes(b"x"),
        Err(VcekError::CertificateParse)
    ));
    assert!(matches!(
        check_vcek_cert_bytes(b""),
        Err(VcekError::CertificateParse)
    ));
}
