use attestation_server::calc_expected_ld::{LaunchDigestFailure, VMDescription};
use attestation_server::report::TcbVersion;
use attestation_server::snp_validate_report::ProductName;

fn description(cmdline: &str) -> VMDescription {
    VMDescription {
        host_cpu_family: ProductName::Milan,
        vcpu_count: 4,
        ovmf_file: "/nonexistent/ovmf.fd".to_string(),
        guest_features: 0x21,
        kernel_file: "/nonexistent/kernel".to_string(),
        initrd_file: "/nonexistent/initrd".to_string(),
        kernel_cmdline: cmdline.to_string(),
        platform_info: 1,
        min_commited_tcb: TcbVersion { bootloader: 5, tee: 0, snp: 14, microcode: 62 },
        guest_policy: 0x30000,
        family_id: [0u8; 16],
        image_id: [0u8; 16],
    }
}

// An empty kernel command line is not handed to the digest primitive at
// all; a single-space command line is, so the two marshal differently.
#[test]
fn empty_cmdline_omits_append() {
    let args = description("").digest_args();
    assert!(args.append.is_none());

    let args = description(" ").digest_args();
    assert_eq!(args.append.as_deref(), Some(" "));

    let args = description("console=ttyS0").digest_args();
    assert_eq!(args.append.as_deref(), Some("console=ttyS0"));
}

#[test]
fn digest_args_carry_the_description() {
    let args = description("quiet").digest_args();
    assert_eq!(args.vcpus, 4);
    assert_eq!(args.ovmf_file, "/nonexistent/ovmf.fd");
    assert_eq!(args.guest_features, 0x21);
    assert_eq!(args.kernel_file, "/nonexistent/kernel");
    assert_eq!(args.initrd_file, "/nonexistent/initrd");
}

#[test]
fn missing_firmware_file_fails_digest() {
    assert_eq!(
        description("").compute_expected_hash(),
        Err(LaunchDigestFailure)
    );
}
