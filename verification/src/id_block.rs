//! Parsing of the owner's ID block and ID authentication structure, and
//! the reduction of both to the five values an attestation report must
//! reproduce.  Both structures arrive base64-encoded over their fixed
//! binary layouts.

use vstd::prelude::*;

use crate::encoding::{bytes_at, spec_u32_of_le, spec_u64_of_le, u32_at, u64_at};
use crate::snp_validate_report::IDBLockReportData;
use base64::Engine;

verus! {

/// Length in bytes of a binary ID block.
pub const ID_BLOCK_LEN: usize = 96;

/// Length in bytes of a binary ID authentication structure.
pub const ID_AUTH_LEN: usize = 4096;

/// Length in bytes of a serialized SEV ECDSA public key.
pub const SEV_PUBKEY_LEN: usize = 1028;

/// The ID block the owner hands the hypervisor at launch.
pub struct IdBlock {
    pub launch_digest: [u8; 48],
    pub family_id: [u8; 16],
    pub image_id: [u8; 16],
    pub version: u32,
    pub guest_svn: u32,
    pub policy: u64,
}

/// The parts of the ID authentication structure that report verification
/// reads: the key algorithms and the two serialized public keys, whose
/// SHA-384 digests the report carries.
pub struct IdAuth {
    pub id_key_algo: u32,
    pub author_key_algo: u32,
    /// The serialized public component of the ID key, 1028 bytes.
    pub id_pubkey: Vec<u8>,
    /// The serialized public component of the author key, 1028 bytes.
    pub author_pub_key: Vec<u8>,
}

/// Why ID-block input could not be understood.
#[derive(Clone, Copy, Debug, PartialEq, Eq, Structural)]
pub enum IdBlockParseError {
    /// The ID block is not valid base64.
    IdBlockEncoding,
    /// The decoded ID block is shorter than its fixed layout.
    IdBlockFormat,
    /// The ID auth block is not valid base64.
    IdAuthEncoding,
    /// The decoded ID auth block is shorter than its fixed layout.
    IdAuthFormat,
}

/// What the base64 crate's standard-alphabet decoder returns: a fixed
/// function of the input, `None` exactly on text that is not valid padded
/// standard base64.
pub uninterp spec fn spec_base64_decode(data: Seq<u8>) -> Option<Seq<u8>>;

/// Relies on the base64 crate's `STANDARD` engine: decoding is
/// deterministic and fails exactly on invalid input.
#[verifier::external_body]
fn base64_decode(data: &[u8]) -> (r: Option<Vec<u8>>)
    ensures
        r is Some <==> spec_base64_decode(data@) is Some,
        r matches Some(v) ==> spec_base64_decode(data@) == Some(v@),
{
    base64::engine::general_purpose::STANDARD.decode(data).ok()
}

/// The SHA-384 digest of a byte string: 48 bytes, a fixed function of the
/// input alone.
pub uninterp spec fn spec_sha384(data: Seq<u8>) -> Seq<u8>;

/// Relies on openssl's `sha384`: the digest is deterministic in the input
/// and 48 bytes long.
#[verifier::external_body]
fn sha384_digest(data: &[u8]) -> (r: [u8; 48])
    ensures
        r@ == spec_sha384(data@),
{
    openssl::sha::sha384(data)
}

/// Parses a binary ID block.  Succeeds exactly when the input holds the
/// block's 96-byte layout; bytes beyond it are ignored, as the binary
/// decoder the blocks were written with ignores them.
pub fn parse_id_block(bytes: &[u8]) -> (r: Option<IdBlock>)
    ensures
        r is Some <==> bytes@.len() >= ID_BLOCK_LEN,
        r matches Some(b) ==> {
            &&& b.launch_digest@ == bytes@.subrange(0, 48)
            &&& b.family_id@ == bytes@.subrange(48, 64)
            &&& b.image_id@ == bytes@.subrange(64, 80)
            &&& b.version == spec_u32_of_le(bytes@.subrange(80, 84))
            &&& b.guest_svn == spec_u32_of_le(bytes@.subrange(84, 88))
            &&& b.policy == spec_u64_of_le(bytes@.subrange(88, 96))
        },
{
    if bytes.len() < ID_BLOCK_LEN {
        return None;
    }
    Some(
        IdBlock {
            launch_digest: bytes_at::<48>(bytes, 0),
            family_id: bytes_at::<16>(bytes, 48),
            image_id: bytes_at::<16>(bytes, 64),
            version: u32_at(bytes, 80),
            guest_svn: u32_at(bytes, 84),
            policy: u64_at(bytes, 88),
        },
    )
}

/// Parses a binary ID authentication structure.  Succeeds exactly when the
/// input holds the structure's 4096-byte layout: key algorithms at the
/// front, the ID public key at offset 0x240 and the author public key at
/// offset 0x880, each 1028 bytes.
pub fn parse_id_auth(bytes: &[u8]) -> (r: Option<IdAuth>)
    ensures
        r is Some <==> bytes@.len() >= ID_AUTH_LEN,
        r matches Some(a) ==> {
            &&& a.id_key_algo == spec_u32_of_le(bytes@.subrange(0, 4))
            &&& a.author_key_algo == spec_u32_of_le(bytes@.subrange(4, 8))
            &&& a.id_pubkey@ == bytes@.subrange(0x240, 0x240 + SEV_PUBKEY_LEN)
            &&& a.author_pub_key@ == bytes@.subrange(0x880, 0x880 + SEV_PUBKEY_LEN)
        },
{
    if bytes.len() < ID_AUTH_LEN {
        return None;
    }
    let id_pubkey = vstd::slice::slice_to_vec(
        vstd::slice::slice_subrange(bytes, 0x240, 0x240 + SEV_PUBKEY_LEN),
    );
    let author_pub_key = vstd::slice::slice_to_vec(
        vstd::slice::slice_subrange(bytes, 0x880, 0x880 + SEV_PUBKEY_LEN),
    );
    Some(
        IdAuth {
            id_key_algo: u32_at(bytes, 0),
            author_key_algo: u32_at(bytes, 4),
            id_pubkey,
            author_pub_key,
        },
    )
}

/// Reduces a parsed ID block and auth structure to the five values the
/// attestation report must reproduce: the block's guest SVN, family id and
/// image id, and the SHA-384 digests of the two public keys.
pub fn id_block_report_data(id: &IdBlock, auth: &IdAuth) -> (r: IDBLockReportData)
    ensures
        r.guest_svn == id.guest_svn,
        r.f_id == id.family_id,
        r.i_id == id.image_id,
        r.id_key_digest@ == spec_sha384(auth.id_pubkey@),
        r.author_key_digest@ == spec_sha384(auth.author_pub_key@),
{
    IDBLockReportData {
        guest_svn: id.guest_svn,
        f_id: id.family_id,
        i_id: id.image_id,
        id_key_digest: sha384_digest(auth.id_pubkey.as_slice()),
        author_key_digest: sha384_digest(auth.author_pub_key.as_slice()),
    }
}

/// Decodes and parses the owner's base64-encoded ID block and ID auth
/// block, and derives the report expectations they bind.  Fails exactly
/// when an input is not valid base64 or decodes to fewer bytes than the
/// structure's fixed layout.
pub fn parse_id_block_data(id_block_raw: &[u8], id_auth_block_raw: &[u8]) -> (r: Result<
    (IdBlock, IdAuth, IDBLockReportData),
    IdBlockParseError,
>)
    ensures
        r is Ok <==> {
            &&& spec_base64_decode(id_block_raw@) matches Some(b) && b.len() >= ID_BLOCK_LEN
            &&& spec_base64_decode(id_auth_block_raw@) matches Some(a) && a.len() >= ID_AUTH_LEN
        },
        r matches Ok((id, auth, rd)) ==> {
            &&& spec_base64_decode(id_block_raw@) matches Some(b) && {
                &&& id.launch_digest@ == b.subrange(0, 48)
                &&& id.family_id@ == b.subrange(48, 64)
                &&& id.image_id@ == b.subrange(64, 80)
                &&& id.guest_svn == spec_u32_of_le(b.subrange(84, 88))
                &&& id.policy == spec_u64_of_le(b.subrange(88, 96))
            }
            &&& spec_base64_decode(id_auth_block_raw@) matches Some(a) && {
                &&& auth.id_pubkey@ == a.subrange(0x240, 0x240 + SEV_PUBKEY_LEN)
                &&& auth.author_pub_key@ == a.subrange(0x880, 0x880 + SEV_PUBKEY_LEN)
            }
            &&& rd.guest_svn == id.guest_svn
            &&& rd.f_id == id.family_id
            &&& rd.i_id == id.image_id
            &&& rd.id_key_digest@ == spec_sha384(auth.id_pubkey@)
            &&& rd.author_key_digest@ == spec_sha384(auth.author_pub_key@)
        },
        r matches Err(e) ==> match e {
            IdBlockParseError::IdBlockEncoding => spec_base64_decode(id_block_raw@) is None,
            IdBlockParseError::IdBlockFormat => spec_base64_decode(id_block_raw@) matches Some(b)
                && b.len() < ID_BLOCK_LEN,
            IdBlockParseError::IdAuthEncoding => spec_base64_decode(id_auth_block_raw@) is None,
            IdBlockParseError::IdAuthFormat => spec_base64_decode(id_auth_block_raw@) matches Some(
                a,
            ) && a.len() < ID_AUTH_LEN,
        },
{
    let id_bytes = match base64_decode(id_block_raw) {
        Some(v) => v,
        None => {
            return Err(IdBlockParseError::IdBlockEncoding);
        },
    };
    let id_block = match parse_id_block(id_bytes.as_slice()) {
        Some(b) => b,
        None => {
            return Err(IdBlockParseError::IdBlockFormat);
        },
    };
    let auth_bytes = match base64_decode(id_auth_block_raw) {
        Some(v) => v,
        None => {
            return Err(IdBlockParseError::IdAuthEncoding);
        },
    };
    let id_auth = match parse_id_auth(auth_bytes.as_slice()) {
        Some(a) => a,
        None => {
            return Err(IdBlockParseError::IdAuthFormat);
        },
    };
    let report_data = id_block_report_data(&id_block, &id_auth);
    Ok((id_block, id_auth, report_data))
}

} // verus!
