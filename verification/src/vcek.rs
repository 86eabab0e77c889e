//! Naming and location of Versioned Chip Endorsement Key certificates:
//! the cache filename and the key-distribution URL for a chip, product
//! family and committed TCB.  Filenames encode every tuple member, so
//! distinct tuples never collide in the cache.

use vstd::prelude::*;

use crate::encoding::{
    is_dec_digit, lemma_dec_then, lemma_hex_of_injective, lemma_hex_of_len, spec_dec_of,
    spec_hex_digit, spec_hex_of,
};
use crate::report::TcbVersion;
use crate::snp_validate_report::ProductName;
use vstd::arithmetic::div_mod::lemma_div_denominator;
use vstd::string::StringExecFns;

verus! {

/// A VCEK certificate could not be obtained or understood.
#[derive(Clone, Copy, Debug, PartialEq, Eq, Structural)]
pub enum VcekError {
    /// Network or HTTP failure while fetching the certificate.
    CertificateUnavailable,
    /// The fetched bytes are not an X.509 certificate.
    CertificateParse,
}

/// Relies on hex::encode: lowercase hex, two digits per byte, in input
/// order.
#[verifier::external_body]
pub fn hex_encode(bytes: &[u8]) -> (r: String)
    ensures
        r@ == spec_hex_of(bytes@),
{
    hex::encode(bytes)
}

/// Whether the bytes parse as an X.509 certificate, in DER or PEM form;
/// a fixed function of the bytes.
pub uninterp spec fn spec_x509_parses(bytes: Seq<u8>) -> bool;

/// Relies on sev's `Certificate::from_bytes`, which accepts exactly the
/// byte strings that parse as a DER- or PEM-encoded X.509 certificate.
/// It reads the leading 27 bytes to identify the format and panics on
/// shorter input, so such input is excluded here.
#[verifier::external_body]
fn certificate_parses(bytes: &[u8]) -> (r: bool)
    requires
        bytes@.len() >= crate::snp_validate_report::MIN_CERT_LEN,
    ensures
        r == spec_x509_parses(bytes@),
{
    sev::certs::snp::Certificate::from_bytes(bytes).is_ok()
}

/// Checks that fetched certificate bytes are X.509 before they are cached
/// or trusted; the distinct parse error tells a user the key-distribution
/// answer was malformed rather than missing.  Bytes too short to identify
/// are rejected outright.
pub fn check_vcek_cert_bytes(bytes: &[u8]) -> (r: Result<(), VcekError>)
    ensures
        r is Ok <==> bytes@.len() >= crate::snp_validate_report::MIN_CERT_LEN
            && spec_x509_parses(bytes@),
        r matches Err(e) ==> e is CertificateParse,
{
    if bytes.len() < crate::snp_validate_report::MIN_CERT_LEN {
        return Err(VcekError::CertificateParse);
    }
    if certificate_parses(bytes) {
        Ok(())
    } else {
        Err(VcekError::CertificateParse)
    }
}

/// One decimal digit as a string.
fn digit_str(d: u8) -> (r: &'static str)
    requires
        d < 10,
    ensures
        r@ == seq![spec_hex_digit(d as int)],
{
    proof {
        reveal_strlit("0");
        reveal_strlit("1");
        reveal_strlit("2");
        reveal_strlit("3");
        reveal_strlit("4");
        reveal_strlit("5");
        reveal_strlit("6");
        reveal_strlit("7");
        reveal_strlit("8");
        reveal_strlit("9");
    }
    let r = match d {
        0 => "0",
        1 => "1",
        2 => "2",
        3 => "3",
        4 => "4",
        5 => "5",
        6 => "6",
        7 => "7",
        8 => "8",
        _ => "9",
    };
    assert(r@ =~= seq![spec_hex_digit(d as int)]);
    r
}

/// Renders a number in decimal, without leading zeros.
pub fn u8_dec(n: u8) -> (r: String)
    ensures
        r@ == spec_dec_of(n as int),
{
    let mut s = String::new();
    if n >= 100 {
        proof {
            lemma_div_denominator(n as int, 10, 10);
            assert(spec_dec_of(n as int) == spec_dec_of(n as int / 10) + seq![
                spec_hex_digit(n as int % 10),
            ]);
            assert(spec_dec_of(n as int / 10) == spec_dec_of(n as int / 10 / 10) + seq![
                spec_hex_digit(n as int / 10 % 10),
            ]);
            assert(spec_dec_of(n as int / 100) == seq![spec_hex_digit(n as int / 100)]);
        }
        s.append(digit_str(n / 100));
        s.append(digit_str((n / 10) % 10));
        s.append(digit_str(n % 10));
        assert(s@ =~= spec_dec_of(n as int));
    } else if n >= 10 {
        proof {
            assert(spec_dec_of(n as int) == spec_dec_of(n as int / 10) + seq![
                spec_hex_digit(n as int % 10),
            ]);
            assert(spec_dec_of(n as int / 10) == seq![spec_hex_digit(n as int / 10)]);
        }
        s.append(digit_str(n / 10));
        s.append(digit_str(n % 10));
        assert(s@ =~= spec_dec_of(n as int));
    } else {
        s.append(digit_str(n));
        assert(s@ =~= spec_dec_of(n as int));
    }
    s
}

/// The TCB part of a VCEK cache filename.
pub open spec fn spec_tcb_suffix(tcb: TcbVersion) -> Seq<char> {
    "-bl-"@ + (spec_dec_of(tcb.bootloader as int) + ("-tee-"@ + (spec_dec_of(tcb.tee as int) + (
    "-snp-"@ + (spec_dec_of(tcb.snp as int) + ("-ucode-"@ + (spec_dec_of(tcb.microcode as int)
        + ".crt"@)))))))
}

/// The cache filename for a VCEK: product family, hex chip id, and every
/// TCB component.
pub open spec fn spec_vcek_filename(
    product: ProductName,
    chip_id: Seq<u8>,
    tcb: TcbVersion,
) -> Seq<char> {
    product.spec_name() + ("-"@ + (spec_hex_of(chip_id) + spec_tcb_suffix(tcb)))
}

/// Maps a VCEK's identifying tuple to its cache filename.
pub fn filename_for_vcek(chip_id: [u8; 64], product_name: ProductName, tcb: &TcbVersion) -> (r:
    String)
    ensures
        r@ == spec_vcek_filename(product_name, chip_id@, *tcb),
{
    let mut s = String::new();
    s.append(product_name.name());
    s.append("-");
    let hex = hex_encode(chip_id.as_slice());
    s.append(hex.as_str());
    s.append("-bl-");
    let bl = u8_dec(tcb.bootloader);
    s.append(bl.as_str());
    s.append("-tee-");
    let tee = u8_dec(tcb.tee);
    s.append(tee.as_str());
    s.append("-snp-");
    let snp = u8_dec(tcb.snp);
    s.append(snp.as_str());
    s.append("-ucode-");
    let ucode = u8_dec(tcb.microcode);
    s.append(ucode.as_str());
    s.append(".crt");
    assert(s@ =~= spec_vcek_filename(product_name, chip_id@, *tcb));
    s
}

/// The key-distribution URL a VCEK is fetched from: product family and
/// hex chip id in the path, the TCB components as query parameters.
pub open spec fn spec_vcek_url(product: ProductName, chip_id: Seq<u8>, tcb: TcbVersion) -> Seq<
    char,
> {
    "https://kdsintf.amd.com/vcek/v1/"@ + product.spec_name() + "/"@ + spec_hex_of(chip_id)
        + "?blSPL="@ + spec_dec_of(tcb.bootloader as int) + "&teeSPL="@ + spec_dec_of(
        tcb.tee as int,
    ) + "&snpSPL="@ + spec_dec_of(tcb.snp as int) + "&ucodeSPL="@ + spec_dec_of(
        tcb.microcode as int,
    )
}

/// Builds the key-distribution URL for a VCEK's identifying tuple.
pub fn vcek_url(chip_id: [u8; 64], product_name: ProductName, tcb: &TcbVersion) -> (r: String)
    ensures
        r@ == spec_vcek_url(product_name, chip_id@, *tcb),
{
    let mut s = String::new();
    s.append("https://kdsintf.amd.com/vcek/v1/");
    s.append(product_name.name());
    s.append("/");
    let hex = hex_encode(chip_id.as_slice());
    s.append(hex.as_str());
    s.append("?blSPL=");
    let bl = u8_dec(tcb.bootloader);
    s.append(bl.as_str());
    s.append("&teeSPL=");
    let tee = u8_dec(tcb.tee);
    s.append(tee.as_str());
    s.append("&snpSPL=");
    let snp = u8_dec(tcb.snp);
    s.append(snp.as_str());
    s.append("&ucodeSPL=");
    let ucode = u8_dec(tcb.microcode);
    s.append(ucode.as_str());
    assert(s@ =~= spec_vcek_url(product_name, chip_id@, *tcb));
    s
}

/// Cancelling a shared prefix of two equal concatenations.
proof fn lemma_append_cancel(p: Seq<char>, x: Seq<char>, y: Seq<char>)
    requires
        p + x == p + y,
    ensures
        x == y,
{
    assert(x =~= (p + x).skip(p.len() as int));
    assert(y =~= (p + y).skip(p.len() as int));
}

/// The TCB suffix determines the TCB: each component sits between fixed
/// separators that no decimal digit can imitate.
proof fn lemma_tcb_suffix_injective(t1: TcbVersion, t2: TcbVersion)
    requires
        spec_tcb_suffix(t1) == spec_tcb_suffix(t2),
    ensures
        t1 == t2,
{
    reveal_strlit("-bl-");
    reveal_strlit("-tee-");
    reveal_strlit("-snp-");
    reveal_strlit("-ucode-");
    reveal_strlit(".crt");
    let r1_tee = "-tee-"@ + (spec_dec_of(t1.tee as int) + ("-snp-"@ + (spec_dec_of(t1.snp as int)
        + ("-ucode-"@ + (spec_dec_of(t1.microcode as int) + ".crt"@)))));
    let r2_tee = "-tee-"@ + (spec_dec_of(t2.tee as int) + ("-snp-"@ + (spec_dec_of(t2.snp as int)
        + ("-ucode-"@ + (spec_dec_of(t2.microcode as int) + ".crt"@)))));
    lemma_append_cancel(
        "-bl-"@,
        spec_dec_of(t1.bootloader as int) + r1_tee,
        spec_dec_of(t2.bootloader as int) + r2_tee,
    );
    assert(!is_dec_digit(r1_tee[0]));
    assert(!is_dec_digit(r2_tee[0]));
    lemma_dec_then(t1.bootloader as int, t2.bootloader as int, r1_tee, r2_tee);
    let r1_snp = "-snp-"@ + (spec_dec_of(t1.snp as int) + ("-ucode-"@ + (spec_dec_of(
        t1.microcode as int,
    ) + ".crt"@)));
    let r2_snp = "-snp-"@ + (spec_dec_of(t2.snp as int) + ("-ucode-"@ + (spec_dec_of(
        t2.microcode as int,
    ) + ".crt"@)));
    lemma_append_cancel(
        "-tee-"@,
        spec_dec_of(t1.tee as int) + r1_snp,
        spec_dec_of(t2.tee as int) + r2_snp,
    );
    assert(!is_dec_digit(r1_snp[0]));
    assert(!is_dec_digit(r2_snp[0]));
    lemma_dec_then(t1.tee as int, t2.tee as int, r1_snp, r2_snp);
    let r1_ucode = "-ucode-"@ + (spec_dec_of(t1.microcode as int) + ".crt"@);
    let r2_ucode = "-ucode-"@ + (spec_dec_of(t2.microcode as int) + ".crt"@);
    lemma_append_cancel(
        "-snp-"@,
        spec_dec_of(t1.snp as int) + r1_ucode,
        spec_dec_of(t2.snp as int) + r2_ucode,
    );
    assert(!is_dec_digit(r1_ucode[0]));
    assert(!is_dec_digit(r2_ucode[0]));
    lemma_dec_then(t1.snp as int, t2.snp as int, r1_ucode, r2_ucode);
    lemma_append_cancel(
        "-ucode-"@,
        spec_dec_of(t1.microcode as int) + ".crt"@,
        spec_dec_of(t2.microcode as int) + ".crt"@,
    );
    assert(!is_dec_digit(".crt"@[0]));
    lemma_dec_then(t1.microcode as int, t2.microcode as int, ".crt"@, ".crt"@);
}

/// Law: the VCEK cache filename is injective over its inputs.  Distinct
/// chip, product-family or TCB tuples name distinct cache files.
pub proof fn lemma_vcek_filename_injective(
    p1: ProductName,
    c1: Seq<u8>,
    t1: TcbVersion,
    p2: ProductName,
    c2: Seq<u8>,
    t2: TcbVersion,
)
    requires
        c1.len() == 64,
        c2.len() == 64,
        spec_vcek_filename(p1, c1, t1) == spec_vcek_filename(p2, c2, t2),
    ensures
        p1 == p2,
        c1 == c2,
        t1 == t2,
{
    reveal_strlit("Milan");
    reveal_strlit("Genoa");
    reveal_strlit("-");
    let s1 = spec_vcek_filename(p1, c1, t1);
    let s2 = spec_vcek_filename(p2, c2, t2);
    assert(p1.spec_name().len() == 5 && p2.spec_name().len() == 5);
    assert(s1[0] == p1.spec_name()[0]);
    assert(s2[0] == p2.spec_name()[0]);
    assert(p1 == p2);
    lemma_append_cancel(
        p1.spec_name(),
        "-"@ + (spec_hex_of(c1) + spec_tcb_suffix(t1)),
        "-"@ + (spec_hex_of(c2) + spec_tcb_suffix(t2)),
    );
    lemma_append_cancel(
        "-"@,
        spec_hex_of(c1) + spec_tcb_suffix(t1),
        spec_hex_of(c2) + spec_tcb_suffix(t2),
    );
    lemma_hex_of_len(c1);
    lemma_hex_of_len(c2);
    let u1 = spec_hex_of(c1) + spec_tcb_suffix(t1);
    let u2 = spec_hex_of(c2) + spec_tcb_suffix(t2);
    assert(spec_hex_of(c1) =~= u1.subrange(0, 128));
    assert(spec_hex_of(c2) =~= u2.subrange(0, 128));
    lemma_hex_of_injective(c1, c2);
    assert(spec_tcb_suffix(t1) =~= u1.skip(128));
    assert(spec_tcb_suffix(t2) =~= u2.skip(128));
    lemma_tcb_suffix_injective(t1, t2);
}

} // verus!
