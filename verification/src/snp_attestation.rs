//! The guest-controlled report-data payload and the report oracle: the
//! 64-byte field carries the verifier's nonce and the attester's ephemeral
//! public key into the signed report.

use vstd::prelude::*;

use crate::encoding::{bytes_at, spec_u64_le, spec_u64_of_le, u64_from_le_bytes, u64_to_le_bytes};
use crate::report::{parse_attestation_report, AttestationReport, REPORT_LEN};

verus! {

/// What the attester packs into the report-data field.
pub struct ReportData {
    /// The verifier's nonce, echoed back.
    pub nonce: u64,
    /// The attester's ephemeral X25519 public key.
    pub server_public_key: [u8; 32],
}

/// The 64-byte wire form: the nonce's little-endian bytes, the 32-byte
/// public key, then 24 zero bytes of padding.
pub open spec fn spec_report_data_bytes(nonce: u64, pk: Seq<u8>) -> Seq<u8> {
    spec_u64_le(nonce) + pk + Seq::new(24, |i: int| 0u8)
}

impl ReportData {
    pub fn new(nonce: u64, public_key: [u8; 32]) -> (r: Self)
        ensures
            r.nonce == nonce,
            r.server_public_key == public_key,
    {
        ReportData { nonce, server_public_key: public_key }
    }

    /// Serializes to the 64-byte report-data field.
    pub fn into_bytes(&self) -> (r: [u8; 64])
        ensures
            r@ == spec_report_data_bytes(self.nonce, self.server_public_key@),
    {
        let le = u64_to_le_bytes(self.nonce);
        let mut out: [u8; 64] = [0u8; 64];
        let mut i: usize = 0;
        while i < 8
            invariant
                i <= 8,
                le@ == spec_u64_le(self.nonce),
                forall|j: int| 0 <= j < i ==> out@[j] == le@[j],
                forall|j: int| i <= j < 64 ==> out@[j] == 0u8,
            decreases 8 - i,
        {
            out[i] = le[i];
            i += 1;
        }
        let mut k: usize = 0;
        while k < 32
            invariant
                k <= 32,
                le@ == spec_u64_le(self.nonce),
                forall|j: int| 0 <= j < 8 ==> out@[j] == le@[j],
                forall|j: int| 0 <= j < k ==> out@[8 + j] == self.server_public_key@[j],
                forall|j: int| 8 + k <= j < 64 ==> out@[j] == 0u8,
            decreases 32 - k,
        {
            out[8 + k] = self.server_public_key[k];
            k += 1;
        }
        assert(out@ =~= spec_report_data_bytes(self.nonce, self.server_public_key@));
        out
    }

    /// Reads the nonce and the public key back out of a report-data field;
    /// the 24 trailing padding bytes are ignored.
    pub fn from_bytes(value: &[u8; 64]) -> (r: Self)
        ensures
            r.nonce == spec_u64_of_le(value@.subrange(0, 8)),
            r.server_public_key@ == value@.subrange(8, 40),
    {
        let nonce_bytes = bytes_at::<8>(value.as_slice(), 0);
        let pk = bytes_at::<32>(value.as_slice(), 8);
        ReportData { nonce: u64_from_le_bytes(&nonce_bytes), server_public_key: pk }
    }
}

/// Packing a nonce and a public key into report-data and reading them back
/// returns them unchanged; only the zero padding is not round-tripped.
pub proof fn lemma_report_data_round_trip(nonce: u64, pk: Seq<u8>)
    requires
        pk.len() == 32,
    ensures
        spec_u64_of_le(spec_report_data_bytes(nonce, pk).subrange(0, 8)) == nonce,
        spec_report_data_bytes(nonce, pk).subrange(8, 40) == pk,
{
    let bytes = spec_report_data_bytes(nonce, pk);
    assert(bytes.subrange(0, 8) =~= spec_u64_le(nonce));
    crate::encoding::lemma_u64_le_round_trip(nonce);
    assert(bytes.subrange(8, 40) =~= pk);
}

/// A source of attestation reports bound to the given report data: the SNP
/// firmware in a real deployment, or a mock for verifier-side testing.
pub trait QuerySNPAttestation {
    fn get_report(nonce: u64, server_public_key: [u8; 32]) -> Result<AttestationReport, ()>;
}

/// Builds the report a mock oracle returns: every field zero except the
/// report-data, which carries the nonce and public key as the firmware
/// would echo them.
pub fn mock_report(nonce: u64, server_public_key: [u8; 32]) -> (r: AttestationReport)
    ensures
        r.wf(),
        r.report_data@ == spec_report_data_bytes(nonce, server_public_key@),
        r.raw@.len() == REPORT_LEN,
        forall|i: int|
            0 <= i < REPORT_LEN && !(0x50 <= i < 0x90) ==> r.raw@[i] == 0u8,
{
    let rd = ReportData::new(nonce, server_public_key).into_bytes();
    let mut raw: Vec<u8> = Vec::new();
    let mut i: usize = 0;
    while i < REPORT_LEN
        invariant
            i <= REPORT_LEN,
            raw@.len() == i,
            rd@.len() == 64,
            forall|j: int| 0 <= j < i && !(0x50 <= j < 0x90) ==> raw@[j] == 0u8,
            forall|j: int| 0 <= j < i && 0x50 <= j < 0x90 ==> raw@[j] == rd@[j - 0x50],
        decreases REPORT_LEN - i,
    {
        if i >= 0x50 && i < 0x90 {
            raw.push(rd[i - 0x50]);
        } else {
            raw.push(0u8);
        }
        i += 1;
    }
    let report = parse_attestation_report(raw.as_slice());
    let report = match report {
        Some(rep) => rep,
        None => vstd::pervasive::unreached(),
    };
    proof {
        assert(report.raw@.subrange(0x50, 0x90) =~= rd@);
    }
    report
}

/// Mock oracle: a defaulted report carrying only the report data.
pub struct MockSNPAttestation {}

impl QuerySNPAttestation for MockSNPAttestation {
    fn get_report(nonce: u64, server_public_key: [u8; 32]) -> Result<AttestationReport, ()> {
        Ok(mock_report(nonce, server_public_key))
    }
}

} // verus!
