//! Verified core of an SEV-SNP attestation and disk-key provisioning service.
//!
//! The library owns the logic of the exchange between a verifier (the VM
//! owner) and an attester (the service inside the confidential VM): the
//! reconstruction of the expected launch measurement, the validation of
//! attestation reports, the two-phase secret-injection protocol and the
//! authenticated transport of the disk key.  Network and file I/O live
//! outside the library and hand it plain values.

pub mod calc_expected_ld;
pub mod encoding;
pub mod id_block;
pub mod protocol;
pub mod report;
pub mod req_resp_ds;
pub mod snp_attestation;
pub mod snp_validate_report;
pub mod vcek;
