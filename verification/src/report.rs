//! Model of the SEV-SNP attestation report: the byte-exact layout that the
//! firmware signs, parsed into the fields the owner's checks read.

use vstd::prelude::*;

use crate::encoding::{bytes_at, spec_u32_of_le, spec_u64_of_le, u32_at, u64_at};

verus! {

/// Length in bytes of a version-2 attestation report.
pub const REPORT_LEN: usize = 1184;

/// Trusted-computing-base version tuple: security version numbers of the
/// four host firmware components.
#[derive(Clone, Copy, Debug, PartialEq, Eq, Structural)]
pub struct TcbVersion {
    pub bootloader: u8,
    pub tee: u8,
    pub snp: u8,
    pub microcode: u8,
}

/// The TCB tuple encoded at `off`: bootloader, TEE, four reserved bytes,
/// SNP firmware, microcode.
pub open spec fn spec_tcb_at(s: Seq<u8>, off: int) -> TcbVersion {
    TcbVersion {
        bootloader: s[off],
        tee: s[off + 1],
        snp: s[off + 6],
        microcode: s[off + 7],
    }
}

/// Reads the TCB tuple stored at `off`.
pub fn tcb_at(b: &[u8], off: usize) -> (r: TcbVersion)
    requires
        off + 8 <= b@.len(),
    ensures
        r == spec_tcb_at(b@, off as int),
{
    TcbVersion { bootloader: b[off], tee: b[off + 1], snp: b[off + 6], microcode: b[off + 7] }
}

/// An attestation report, parsed from the signed bytes.  `raw` holds those
/// bytes unchanged; `wf` states that every field equals what `raw` encodes,
/// so the fields that the checks read and the bytes that the signature
/// covers cannot diverge.
pub struct AttestationReport {
    pub version: u32,
    pub guest_svn: u32,
    pub policy: u64,
    pub family_id: [u8; 16],
    pub image_id: [u8; 16],
    pub plat_info: u64,
    pub report_data: [u8; 64],
    pub measurement: [u8; 48],
    pub host_data: [u8; 32],
    pub id_key_digest: [u8; 48],
    pub author_key_digest: [u8; 48],
    pub chip_id: [u8; 64],
    pub committed_tcb: TcbVersion,
    pub raw: Vec<u8>,
}

impl AttestationReport {
    /// Well-formedness: the parsed fields are exactly what the raw bytes say.
    pub open spec fn wf(self) -> bool {
        let s = self.raw@;
        &&& s.len() == REPORT_LEN
        &&& self.version == spec_u32_of_le(s.subrange(0x00, 0x04))
        &&& self.guest_svn == spec_u32_of_le(s.subrange(0x04, 0x08))
        &&& self.policy == spec_u64_of_le(s.subrange(0x08, 0x10))
        &&& self.family_id@ == s.subrange(0x10, 0x20)
        &&& self.image_id@ == s.subrange(0x20, 0x30)
        &&& self.plat_info == spec_u64_of_le(s.subrange(0x40, 0x48))
        &&& self.report_data@ == s.subrange(0x50, 0x90)
        &&& self.measurement@ == s.subrange(0x90, 0xC0)
        &&& self.host_data@ == s.subrange(0xC0, 0xE0)
        &&& self.id_key_digest@ == s.subrange(0xE0, 0x110)
        &&& self.author_key_digest@ == s.subrange(0x110, 0x140)
        &&& self.chip_id@ == s.subrange(0x1A0, 0x1E0)
        &&& self.committed_tcb == spec_tcb_at(s, 0x1E0)
    }
}

/// Parses an attestation report from its signed byte representation.
/// Succeeds exactly on inputs of the report's fixed length.
pub fn parse_attestation_report(bytes: &[u8]) -> (r: Option<AttestationReport>)
    ensures
        r is Some <==> bytes@.len() == REPORT_LEN,
        r matches Some(rep) ==> rep.wf() && rep.raw@ == bytes@,
{
    if bytes.len() != REPORT_LEN {
        return None;
    }
    let report = AttestationReport {
        version: u32_at(bytes, 0x00),
        guest_svn: u32_at(bytes, 0x04),
        policy: u64_at(bytes, 0x08),
        family_id: bytes_at::<16>(bytes, 0x10),
        image_id: bytes_at::<16>(bytes, 0x20),
        plat_info: u64_at(bytes, 0x40),
        report_data: bytes_at::<64>(bytes, 0x50),
        measurement: bytes_at::<48>(bytes, 0x90),
        host_data: bytes_at::<32>(bytes, 0xC0),
        id_key_digest: bytes_at::<48>(bytes, 0xE0),
        author_key_digest: bytes_at::<48>(bytes, 0x110),
        chip_id: bytes_at::<64>(bytes, 0x1A0),
        committed_tcb: tcb_at(bytes, 0x1E0),
        raw: vstd::slice::slice_to_vec(bytes),
    };
    Some(report)
}

} // verus!
