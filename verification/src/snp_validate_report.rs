//! Owner-side validation of an attestation report: per-field policy checks
//! and the ECDSA-P384 certificate-chain signature check.
//!
//! Field checks run before the signature check so that a misconfigured
//! expectation surfaces as a precise semantic error rather than a generic
//! signature failure.

use vstd::prelude::*;

use crate::encoding::{bytes_eq, spec_u64_of_le, u64_from_le_bytes};
use crate::report::{AttestationReport, TcbVersion};
use sev::certs::snp::{builtin::genoa, builtin::milan, ca, Certificate, Chain, Verifiable};

verus! {

/// CPU product family of the host; decides which AMD root certificates
/// anchor the chain.
#[derive(Clone, Copy, Debug, PartialEq, Eq, Structural)]
pub enum ProductName {
    Milan,
    Genoa,
}

impl ProductName {
    /// The family's name as AMD's key-distribution service spells it.
    pub open spec fn spec_name(self) -> Seq<char> {
        match self {
            ProductName::Milan => "Milan"@,
            ProductName::Genoa => "Genoa"@,
        }
    }

    /// Returns the family's name.
    pub fn name(&self) -> (r: &'static str)
        ensures
            r@ == self.spec_name(),
    {
        match self {
            ProductName::Milan => "Milan",
            ProductName::Genoa => "Genoa",
        }
    }
}

/// What the owner expects of the guest-controlled report-data field.
#[derive(Clone, Copy, Debug)]
pub enum ReportDataCheck {
    /// The first eight bytes, read little-endian, must equal this nonce.
    Nonce(u64),
    /// All 64 bytes must match exactly.
    Exact([u8; 64]),
}

/// Which part of the ID-block binding disagrees with the report.
#[derive(Clone, Copy, Debug)]
pub enum IdBlockMismatch {
    GuestSvn { expected: u32, got: u32 },
    FamilyId { expected: [u8; 16], got: [u8; 16] },
    ImageId { expected: [u8; 16], got: [u8; 16] },
    IdKeyDigest { expected: [u8; 48], got: [u8; 48] },
    AuthorKeyDigest { expected: [u8; 48], got: [u8; 48] },
}

/// Data from the ID block and the ID authentication structure that the
/// report must reproduce exactly.
#[derive(Clone, Copy, Debug)]
pub struct IDBLockReportData {
    /// VM-owner-chosen guest security version number.
    pub guest_svn: u32,
    /// VM-owner-chosen family identifier.
    pub f_id: [u8; 16],
    /// VM-owner-chosen image identifier.
    pub i_id: [u8; 16],
    /// SHA-384 digest of the identity public key that signed the ID block.
    pub id_key_digest: [u8; 48],
    /// SHA-384 digest of the author public key that certified the ID key.
    pub author_key_digest: [u8; 48],
}

impl IDBLockReportData {
    /// All five bound fields agree with the report.
    pub open spec fn spec_matches(self, report: AttestationReport) -> bool {
        &&& self.guest_svn == report.guest_svn
        &&& self.f_id@ == report.family_id@
        &&& self.i_id@ == report.image_id@
        &&& self.id_key_digest@ == report.id_key_digest@
        &&& self.author_key_digest@ == report.author_key_digest@
    }

    /// The verdict `r` is the one `check` owes: `Ok` exactly when all
    /// five bound fields agree with the report, and otherwise the first
    /// disagreeing field, in the order guest SVN, family id, image id,
    /// ID-key digest, author-key digest, carrying the expected and the
    /// observed value.
    pub open spec fn spec_check_verdict(
        self,
        report: AttestationReport,
        r: Result<(), IdBlockMismatch>,
    ) -> bool {
        match r {
            Ok(()) => self.spec_matches(report),
            Err(m) => match m {
                IdBlockMismatch::GuestSvn { expected, got } => {
                    &&& expected == self.guest_svn
                    &&& got == report.guest_svn
                    &&& expected != got
                },
                IdBlockMismatch::FamilyId { expected, got } => {
                    &&& self.guest_svn == report.guest_svn
                    &&& expected == self.f_id
                    &&& got == report.family_id
                    &&& expected@ != got@
                },
                IdBlockMismatch::ImageId { expected, got } => {
                    &&& self.guest_svn == report.guest_svn
                    &&& self.f_id@ == report.family_id@
                    &&& expected == self.i_id
                    &&& got == report.image_id
                    &&& expected@ != got@
                },
                IdBlockMismatch::IdKeyDigest { expected, got } => {
                    &&& self.guest_svn == report.guest_svn
                    &&& self.f_id@ == report.family_id@
                    &&& self.i_id@ == report.image_id@
                    &&& expected == self.id_key_digest
                    &&& got == report.id_key_digest
                    &&& expected@ != got@
                },
                IdBlockMismatch::AuthorKeyDigest { expected, got } => {
                    &&& self.guest_svn == report.guest_svn
                    &&& self.f_id@ == report.family_id@
                    &&& self.i_id@ == report.image_id@
                    &&& self.id_key_digest@ == report.id_key_digest@
                    &&& expected == self.author_key_digest
                    &&& got == report.author_key_digest
                    &&& expected@ != got@
                },
            },
        }
    }

    /// Checks that the report carries exactly the data the ID block bound,
    /// reporting the first field that disagrees.
    pub fn check(&self, report: &AttestationReport) -> (r: Result<(), IdBlockMismatch>)
        ensures
            r is Ok <==> self.spec_matches(*report),
            self.spec_check_verdict(*report, r),
    {
        if report.guest_svn != self.guest_svn {
            return Err(
                IdBlockMismatch::GuestSvn { expected: self.guest_svn, got: report.guest_svn },
            );
        }
        if !bytes_eq(self.f_id.as_slice(), report.family_id.as_slice()) {
            return Err(IdBlockMismatch::FamilyId { expected: self.f_id, got: report.family_id });
        }
        if !bytes_eq(self.i_id.as_slice(), report.image_id.as_slice()) {
            return Err(IdBlockMismatch::ImageId { expected: self.i_id, got: report.image_id });
        }
        if !bytes_eq(self.id_key_digest.as_slice(), report.id_key_digest.as_slice()) {
            return Err(
                IdBlockMismatch::IdKeyDigest {
                    expected: self.id_key_digest,
                    got: report.id_key_digest,
                },
            );
        }
        if !bytes_eq(self.author_key_digest.as_slice(), report.author_key_digest.as_slice()) {
            return Err(
                IdBlockMismatch::AuthorKeyDigest {
                    expected: self.author_key_digest,
                    got: report.author_key_digest,
                },
            );
        }
        Ok(())
    }
}

/// The ways report validation can fail; mismatches carry the expected and
/// the observed value.
#[derive(Clone, Copy, Debug)]
pub enum ReportVerificationError {
    InvalidSignature,
    PolicyMismatch { expected: u64, got: u64 },
    InvalidIdBlock { source: IdBlockMismatch },
    TcbVersionMismatch { required_minimum: TcbVersion, got: TcbVersion },
    PlatformInfoMismatch { expected: u64, got: u64 },
    HostDataMismatch { expected: [u8; 32], got: [u8; 32] },
    LaunchDigestMismatch { expected: [u8; 48], got: [u8; 48] },
    ReportDataMismatch { expected: ReportDataCheck, got: [u8; 64] },
}

/// Every component of `got` is at least its required minimum.  A floor, not
/// an equality: firmware updates advance these numbers monotonically.
pub open spec fn spec_tcb_meets_minimum(got: TcbVersion, min: TcbVersion) -> bool {
    &&& got.bootloader >= min.bootloader
    &&& got.tee >= min.tee
    &&& got.snp >= min.snp
    &&& got.microcode >= min.microcode
}

/// The report-data bytes satisfy the owner's expectation.
pub open spec fn spec_report_data_ok(check: ReportDataCheck, rd: Seq<u8>) -> bool {
    match check {
        ReportDataCheck::Nonce(n) => spec_u64_of_le(rd.subrange(0, 8)) == n,
        ReportDataCheck::Exact(e) => e@ == rd,
    }
}

/// All requested field checks pass on `report`.
pub open spec fn spec_field_checks_ok(
    report: AttestationReport,
    idblock_data: Option<IDBLockReportData>,
    policy: Option<u64>,
    tcb: Option<TcbVersion>,
    plat_info: Option<u64>,
    report_data: Option<ReportDataCheck>,
    host_data: Option<[u8; 32]>,
    ld: Option<[u8; 48]>,
) -> bool {
    &&& (policy matches Some(p) ==> report.policy == p)
    &&& (idblock_data matches Some(d) ==> d.spec_matches(report))
    &&& (tcb matches Some(t) ==> spec_tcb_meets_minimum(report.committed_tcb, t))
    &&& (plat_info matches Some(pi) ==> report.plat_info == pi)
    &&& (report_data matches Some(c) ==> spec_report_data_ok(c, report.report_data@))
    &&& (host_data matches Some(h) ==> report.host_data@ == h@)
    &&& (ld matches Some(l) ==> report.measurement@ == l@)
}

/// The verdict `r` is the one the field checks owe: `Ok` exactly when every
/// requested check passes, and otherwise the error of the first failing
/// check, in the order policy, ID block, TCB, platform info, report data,
/// host data, launch digest, carrying the expected and the observed value.
pub open spec fn spec_field_check_verdict(
    report: AttestationReport,
    idblock_data: Option<IDBLockReportData>,
    policy: Option<u64>,
    tcb: Option<TcbVersion>,
    plat_info: Option<u64>,
    report_data: Option<ReportDataCheck>,
    host_data: Option<[u8; 32]>,
    ld: Option<[u8; 48]>,
    r: Result<(), ReportVerificationError>,
) -> bool {
    let policy_ok = policy matches Some(p) ==> report.policy == p;
    let id_ok = idblock_data matches Some(d) ==> d.spec_matches(report);
    let tcb_ok = tcb matches Some(t) ==> spec_tcb_meets_minimum(report.committed_tcb, t);
    let plat_ok = plat_info matches Some(pi) ==> report.plat_info == pi;
    let rd_ok = report_data matches Some(c) ==> spec_report_data_ok(c, report.report_data@);
    let host_ok = host_data matches Some(h) ==> report.host_data@ == h@;
    let ld_ok = ld matches Some(l) ==> report.measurement@ == l@;
    match r {
        Ok(()) => policy_ok && id_ok && tcb_ok && plat_ok && rd_ok && host_ok && ld_ok,
        Err(e) => match e {
            ReportVerificationError::PolicyMismatch { expected, got } => {
                &&& policy == Some(expected)
                &&& got == report.policy
                &&& expected != got
            },
            ReportVerificationError::InvalidIdBlock { source } => {
                &&& policy_ok
                &&& !id_ok
                &&& idblock_data matches Some(d) && d.spec_check_verdict(report, Err(source))
            },
            ReportVerificationError::TcbVersionMismatch { required_minimum, got } => {
                &&& policy_ok
                &&& id_ok
                &&& tcb == Some(required_minimum)
                &&& got == report.committed_tcb
                &&& !spec_tcb_meets_minimum(got, required_minimum)
            },
            ReportVerificationError::PlatformInfoMismatch { expected, got } => {
                &&& policy_ok
                &&& id_ok
                &&& tcb_ok
                &&& plat_info == Some(expected)
                &&& got == report.plat_info
                &&& expected != got
            },
            ReportVerificationError::ReportDataMismatch { expected, got } => {
                &&& policy_ok
                &&& id_ok
                &&& tcb_ok
                &&& plat_ok
                &&& report_data matches Some(c) && expected == c
                &&& got == report.report_data
                &&& !spec_report_data_ok(expected, report.report_data@)
            },
            ReportVerificationError::HostDataMismatch { expected, got } => {
                &&& policy_ok
                &&& id_ok
                &&& tcb_ok
                &&& plat_ok
                &&& rd_ok
                &&& host_data == Some(expected)
                &&& got == report.host_data
                &&& expected@ != got@
            },
            ReportVerificationError::LaunchDigestMismatch { expected, got } => {
                &&& policy_ok
                &&& id_ok
                &&& tcb_ok
                &&& plat_ok
                &&& rd_ok
                &&& host_ok
                &&& ld == Some(expected)
                &&& got == report.measurement
                &&& expected@ != got@
            },
            ReportVerificationError::InvalidSignature => false,
        },
    }
}

/// Checks every owner-constrained report field whose expected value is
/// supplied; an absent expectation checks nothing.  Does not look at the
/// report signature.
pub fn check_report_data(
    report: &AttestationReport,
    idblock_data: Option<IDBLockReportData>,
    policy: Option<u64>,
    tcb: Option<TcbVersion>,
    plat_info: Option<u64>,
    report_data: Option<ReportDataCheck>,
    host_data: Option<[u8; 32]>,
    ld: Option<[u8; 48]>,
) -> (r: Result<(), ReportVerificationError>)
    ensures
        r is Ok <==> spec_field_checks_ok(
            *report,
            idblock_data,
            policy,
            tcb,
            plat_info,
            report_data,
            host_data,
            ld,
        ),
        spec_field_check_verdict(
            *report,
            idblock_data,
            policy,
            tcb,
            plat_info,
            report_data,
            host_data,
            ld,
            r,
        ),
{
    if let Some(p) = policy {
        if report.policy != p {
            return Err(
                ReportVerificationError::PolicyMismatch { expected: p, got: report.policy },
            );
        }
    }
    if let Some(d) = idblock_data {
        if let Err(source) = d.check(report) {
            return Err(ReportVerificationError::InvalidIdBlock { source });
        }
    }
    if let Some(t) = tcb {
        let got = report.committed_tcb;
        if got.bootloader < t.bootloader || got.tee < t.tee || got.snp < t.snp || got.microcode
            < t.microcode {
            return Err(
                ReportVerificationError::TcbVersionMismatch { required_minimum: t, got },
            );
        }
    }
    if let Some(pi) = plat_info {
        if report.plat_info != pi {
            return Err(
                ReportVerificationError::PlatformInfoMismatch { expected: pi, got: report.plat_info },
            );
        }
    }
    if let Some(c) = report_data {
        let ok = match c {
            ReportDataCheck::Nonce(n) => {
                let first8 = crate::encoding::bytes_at::<8>(report.report_data.as_slice(), 0);
                u64_from_le_bytes(&first8) == n
            },
            ReportDataCheck::Exact(e) => bytes_eq(e.as_slice(), report.report_data.as_slice()),
        };
        if !ok {
            return Err(
                ReportVerificationError::ReportDataMismatch {
                    expected: c,
                    got: report.report_data,
                },
            );
        }
    }
    if let Some(h) = host_data {
        if !bytes_eq(h.as_slice(), report.host_data.as_slice()) {
            return Err(
                ReportVerificationError::HostDataMismatch { expected: h, got: report.host_data },
            );
        }
    }
    if let Some(l) = ld {
        if !bytes_eq(l.as_slice(), report.measurement.as_slice()) {
            return Err(
                ReportVerificationError::LaunchDigestMismatch {
                    expected: l,
                    got: report.measurement,
                },
            );
        }
    }
    Ok(())
}

/// Certificate bytes shorter than this cannot be loaded at all: the
/// loader reads this many leading bytes to tell PEM from DER.
pub const MIN_CERT_LEN: usize = 27;

/// Verdict of AMD's chain on the signed report bytes: whether the family's
/// ARK self-signs, the ARK signs the ASK, the ASK signs the given VCEK, and
/// the VCEK's ECDSA-P384 key signs the report's signed prefix.  Decided by
/// the certificate chain alone, so it is a fixed function of these inputs.
pub uninterp spec fn report_signature_valid(milan: bool, report: Seq<u8>, vcek_cert: Seq<u8>) -> bool;

/// Relies on the sev crate: builtin ARK/ASK certificates for the product
/// family, `Certificate::from_bytes` for the VCEK, and chain verification
/// over the report, which checks ARK self-signs, ARK signs ASK, ASK signs
/// VCEK, and the VCEK key signs the report's signed prefix.
/// `Certificate::from_bytes` reads the leading 27 bytes to identify the
/// format and panics on shorter input, so such input is excluded here.
#[verifier::external_body]
fn chain_verifies(product: &ProductName, report_raw: &Vec<u8>, vcek_cert: &Vec<u8>) -> (r: bool)
    requires
        vcek_cert@.len() >= MIN_CERT_LEN,
    ensures
        r == report_signature_valid(*product is Milan, report_raw@, vcek_cert@),
{
    let (ark, ask) = match product {
        ProductName::Milan => (milan::ark(), milan::ask()),
        ProductName::Genoa => (genoa::ark(), genoa::ask()),
    };
    let (Ok(ark), Ok(ask)) = (ark, ask) else { return false };
    let Ok(vek) = Certificate::from_bytes(vcek_cert) else { return false };
    let Ok(report) = bincode::deserialize::<sev::firmware::guest::AttestationReport>(report_raw)
    else { return false };
    let chain = Chain { ca: ca::Chain { ark, ask }, vek };
    (&chain, &report).verify().is_ok()
}

/// Verifies the report signature under the product family's certificate
/// chain and the given VCEK certificate bytes.  Does not check the data
/// contained in the report.  Certificate bytes too short to identify are
/// rejected outright.
pub fn verify_report_signature(
    product_name: ProductName,
    report: &AttestationReport,
    vcek_cert: &Vec<u8>,
) -> (r: Result<(), ReportVerificationError>)
    ensures
        r is Ok <==> vcek_cert@.len() >= MIN_CERT_LEN && report_signature_valid(
            product_name is Milan,
            report.raw@,
            vcek_cert@,
        ),
        r matches Err(e) ==> e is InvalidSignature,
{
    if vcek_cert.len() < MIN_CERT_LEN {
        return Err(ReportVerificationError::InvalidSignature);
    }
    if chain_verifies(&product_name, &report.raw, vcek_cert) {
        Ok(())
    } else {
        Err(ReportVerificationError::InvalidSignature)
    }
}

/// Checks the owner-constrained fields, then the report signature; data is
/// checked first so that a mismatch surfaces as its own error rather than
/// as a signature failure.
pub fn verify_and_check_report(
    report: &AttestationReport,
    product_name: ProductName,
    vcek_cert: &Vec<u8>,
    idblock_data: Option<IDBLockReportData>,
    policy: Option<u64>,
    tcb: Option<TcbVersion>,
    plat_info: Option<u64>,
    report_data: Option<ReportDataCheck>,
    host_data: Option<[u8; 32]>,
    ld: Option<[u8; 48]>,
) -> (r: Result<(), ReportVerificationError>)
    ensures
        r is Ok <==> spec_field_checks_ok(
            *report,
            idblock_data,
            policy,
            tcb,
            plat_info,
            report_data,
            host_data,
            ld,
        ) && vcek_cert@.len() >= MIN_CERT_LEN && report_signature_valid(
            product_name is Milan,
            report.raw@,
            vcek_cert@,
        ),
        (r matches Err(e) && e is InvalidSignature) <==> spec_field_checks_ok(
            *report,
            idblock_data,
            policy,
            tcb,
            plat_info,
            report_data,
            host_data,
            ld,
        ) && !(vcek_cert@.len() >= MIN_CERT_LEN && report_signature_valid(
            product_name is Milan,
            report.raw@,
            vcek_cert@,
        )),
        r matches Err(e) && !(e is InvalidSignature) ==> spec_field_check_verdict(
            *report,
            idblock_data,
            policy,
            tcb,
            plat_info,
            report_data,
            host_data,
            ld,
            r,
        ),
{
    check_report_data(
        report,
        idblock_data,
        policy,
        tcb,
        plat_info,
        report_data,
        host_data,
        ld,
    )?;
    verify_report_signature(product_name, report, vcek_cert)
}

} // verus!
