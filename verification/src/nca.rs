//! The content-archive fixed header: an RSA signature and modulus, format
//! metadata, four filesystem section descriptors and their per-section
//! headers.
//!
//! The header arrives either as plaintext or encrypted.  It is plaintext
//! exactly when its magic matches a known unencrypted version tag *and*
//! the reserved window at `[0x340, 0x400)` is all zero; any other bit
//! pattern forces the decrypt path, a tweakable block-cipher unwrap of
//! everything from byte `0x200` on, keyed by the two halves of the key
//! store's header key, in 512-byte sectors whose tweak is the big-endian
//! sector index counted from the start of the decrypted region.

use vstd::prelude::*;
use vstd::slice::slice_to_vec;
use crate::bytes::{all_zero, bytes_range, is_zero_range, le32, le64, read_u32_le, read_u64_le,
    read_u8};
use crate::error::ParseError;
use crate::keys::NcaKeys;

verus! {

/// The magic of format version 0.
pub const NCA0_MAGIC: u32 = 0x3041434E;

/// The magic of format version 1.
pub const NCA1_MAGIC: u32 = 0x3141434E;

/// The magic of format version 2, accepted unencrypted.
pub const NCA2_MAGIC: u32 = 0x3241434E;

/// The magic of format version 3, accepted unencrypted.
pub const NCA3_MAGIC: u32 = 0x3341434E;

/// The content-archive format version, from the header magic.
#[derive(Debug, Clone, Copy, PartialEq, Eq, Structural)]
pub enum NcaVersion {
    Nca0,
    Nca1,
    Nca2,
    Nca3,
}

/// How the content is distributed.  An out-of-range byte degrades to the
/// sentinel instead of failing the parse: these enumerations are
/// advisory metadata, not structural gates.
#[derive(Debug, Clone, Copy, PartialEq, Eq, Structural)]
pub enum DistributionType {
    Download,
    GameCard,
    Invalid,
}

/// What kind of content the archive holds.
#[derive(Debug, Clone, Copy, PartialEq, Eq, Structural)]
pub enum ContentType {
    Program,
    Meta,
    Control,
    Manual,
    Data,
    PublicData,
    Invalid,
}

/// The key generation the content was encrypted under.
#[derive(Debug, Clone, Copy, PartialEq, Eq, Structural)]
pub enum KeyGeneration {
    OldOne,
    Unused,
    OldThree,
    ThreeZeroOne,
    Four,
    Five,
    Six,
    SixTwo,
    Seven,
    EightOne,
    Nine,
    NineOne,
    TwelveOne,
    Thirteen,
    Fourteen,
    Fifteen,
    Invalid,
}

/// Which key-area table the content's keys come from.
#[derive(Debug, Clone, Copy, PartialEq, Eq, Structural)]
pub enum KeyAreaIndex {
    Application,
    Ocean,
    System,
    Invalid,
}

/// A section's partition flavour.
#[derive(Debug, Clone, Copy, PartialEq, Eq, Structural)]
pub enum PartitionType {
    RomFs,
    PartitionFs,
    Invalid,
}

/// A section's filesystem type; it selects the superblock's shape.
#[derive(Debug, Clone, Copy, PartialEq, Eq, Structural)]
pub enum FsType {
    NoFs,
    Pfs0,
    RomFs,
    Invalid,
}

/// A section's encryption mode.
#[derive(Debug, Clone, Copy, PartialEq, Eq, Structural)]
pub enum EncryptionType {
    Auto,
    Plain,
    AesXts,
    AesCtr,
    AesCtrEx,
    AesCtrSkipLayerHash,
    AesCtrExSkipLayerHash,
    Invalid,
}

/// The SDK version the content was built with, packed one component per
/// byte.
#[derive(Debug, Clone, Copy, PartialEq, Eq, Structural)]
pub struct SdkAddonVersion(pub u32);

/// One filesystem section descriptor: block bounds and integrity sector
/// count.
#[derive(Debug, Clone, Copy, PartialEq, Eq, Structural)]
pub struct FsEntry {
    pub start_block_offset: u32,
    pub end_block_offset: u32,
    pub hash_sectors: u32,
}

/// The partition-archive superblock of a section: master hash, block
/// size, and the hash-table and archive regions.
#[derive(Debug, PartialEq, Eq)]
pub struct Pfs0SuperBlock {
    pub master_hash: Vec<u8>,
    pub block_size_bytes: u32,
    pub hash_table_offset: u64,
    pub hash_table_size: u64,
    pub pfs0_offset: u64,
    pub pfs0_size: u64,
}

/// A section's superblock, shaped by its filesystem type.  Types other
/// than none and the partition archive are deliberately unsupported and
/// fail the parse loudly.
#[derive(Debug, PartialEq, Eq)]
pub enum SuperBlock {
    NoFs,
    Pfs0(Pfs0SuperBlock),
}

/// One per-section header.
#[derive(Debug, PartialEq, Eq)]
pub struct FsHeader {
    pub partition_type: PartitionType,
    pub fs_type: FsType,
    pub encryption_type: EncryptionType,
    pub superblock: SuperBlock,
    pub section_ctr: Vec<u8>,
}

/// The decoded content-archive header.
#[derive(Debug, PartialEq, Eq)]
pub struct NcaFileCtx {
    pub signature: Vec<u8>,
    pub modulus: Vec<u8>,
    pub file_version: NcaVersion,
    pub distribution_type: DistributionType,
    pub content_type: ContentType,
    pub key_generation_old: KeyGeneration,
    pub key_area_index: KeyAreaIndex,
    pub content_size: u64,
    pub program_id: u64,
    pub content_index: u32,
    pub sdk_addon_version: SdkAddonVersion,
    pub key_generation: KeyGeneration,
    pub signature_key_generation: u8,
    pub rights_id: Vec<u8>,
    pub section_entries: Vec<FsEntry>,
    pub section_hashes: Vec<Vec<u8>>,
    pub encrypted_key_area: Vec<u8>,
    pub fs_headers: Vec<FsHeader>,
}

/// The version a magic word denotes, if any.
pub open spec fn spec_nca_version(w: u32) -> Option<NcaVersion> {
    if w == NCA0_MAGIC {
        Some(NcaVersion::Nca0)
    } else if w == NCA1_MAGIC {
        Some(NcaVersion::Nca1)
    } else if w == NCA2_MAGIC {
        Some(NcaVersion::Nca2)
    } else if w == NCA3_MAGIC {
        Some(NcaVersion::Nca3)
    } else {
        None
    }
}

pub open spec fn spec_distribution_type(v: u8) -> DistributionType {
    if v == 0 {
        DistributionType::Download
    } else if v == 1 {
        DistributionType::GameCard
    } else {
        DistributionType::Invalid
    }
}

pub open spec fn spec_content_type(v: u8) -> ContentType {
    if v == 0 {
        ContentType::Program
    } else if v == 1 {
        ContentType::Meta
    } else if v == 2 {
        ContentType::Control
    } else if v == 3 {
        ContentType::Manual
    } else if v == 4 {
        ContentType::Data
    } else if v == 5 {
        ContentType::PublicData
    } else {
        ContentType::Invalid
    }
}

pub open spec fn spec_key_generation(v: u8) -> KeyGeneration {
    if v == 0 {
        KeyGeneration::OldOne
    } else if v == 1 {
        KeyGeneration::Unused
    } else if v == 2 {
        KeyGeneration::OldThree
    } else if v == 3 {
        KeyGeneration::ThreeZeroOne
    } else if v == 4 {
        KeyGeneration::Four
    } else if v == 5 {
        KeyGeneration::Five
    } else if v == 6 {
        KeyGeneration::Six
    } else if v == 7 {
        KeyGeneration::SixTwo
    } else if v == 8 {
        KeyGeneration::Seven
    } else if v == 9 {
        KeyGeneration::EightOne
    } else if v == 10 {
        KeyGeneration::Nine
    } else if v == 11 {
        KeyGeneration::NineOne
    } else if v == 12 {
        KeyGeneration::TwelveOne
    } else if v == 13 {
        KeyGeneration::Thirteen
    } else if v == 14 {
        KeyGeneration::Fourteen
    } else if v == 15 {
        KeyGeneration::Fifteen
    } else {
        KeyGeneration::Invalid
    }
}

pub open spec fn spec_key_area_index(v: u8) -> KeyAreaIndex {
    if v == 0 {
        KeyAreaIndex::Application
    } else if v == 1 {
        KeyAreaIndex::Ocean
    } else if v == 2 {
        KeyAreaIndex::System
    } else {
        KeyAreaIndex::Invalid
    }
}

pub open spec fn spec_partition_type(v: u8) -> PartitionType {
    if v == 0 {
        PartitionType::RomFs
    } else if v == 1 {
        PartitionType::PartitionFs
    } else {
        PartitionType::Invalid
    }
}

pub open spec fn spec_fs_type(v: u8) -> FsType {
    if v == 0 {
        FsType::NoFs
    } else if v == 2 {
        FsType::Pfs0
    } else if v == 3 {
        FsType::RomFs
    } else {
        FsType::Invalid
    }
}

pub open spec fn spec_encryption_type(v: u8) -> EncryptionType {
    if v == 0 {
        EncryptionType::Auto
    } else if v == 1 {
        EncryptionType::Plain
    } else if v == 2 {
        EncryptionType::AesXts
    } else if v == 3 {
        EncryptionType::AesCtr
    } else if v == 4 {
        EncryptionType::AesCtrEx
    } else if v == 5 {
        EncryptionType::AesCtrSkipLayerHash
    } else if v == 6 {
        EncryptionType::AesCtrExSkipLayerHash
    } else {
        EncryptionType::Invalid
    }
}

/// A partition-archive superblock, as a mathematical value.
pub struct Pfs0SuperBlockModel {
    pub master_hash: Seq<u8>,
    pub block_size_bytes: u32,
    pub hash_table_offset: u64,
    pub hash_table_size: u64,
    pub pfs0_offset: u64,
    pub pfs0_size: u64,
}

/// A section superblock, as a mathematical value.
pub enum SuperBlockModel {
    NoFs,
    Pfs0(Pfs0SuperBlockModel),
}

/// A per-section header, as a mathematical value.
pub struct FsHeaderModel {
    pub partition_type: PartitionType,
    pub fs_type: FsType,
    pub encryption_type: EncryptionType,
    pub superblock: SuperBlockModel,
    pub section_ctr: Seq<u8>,
}

/// The decoding of the per-section header at byte `base` of a plaintext
/// header buffer: filesystem types other than none and the partition
/// archive are unimplemented and fail loudly.
pub open spec fn spec_fs_header(b: Seq<u8>, base: int) -> Result<FsHeaderModel, ParseError> {
    let ft = spec_fs_type(b[base + 3]);
    if ft == FsType::NoFs || ft == FsType::Pfs0 {
        Ok(
            FsHeaderModel {
                partition_type: spec_partition_type(b[base + 2]),
                fs_type: ft,
                encryption_type: spec_encryption_type(b[base + 4]),
                superblock: if ft == FsType::NoFs {
                    SuperBlockModel::NoFs
                } else {
                    SuperBlockModel::Pfs0(
                        Pfs0SuperBlockModel {
                            master_hash: b.subrange(base + 8, base + 0x28),
                            block_size_bytes: le32(b, base + 0x28),
                            hash_table_offset: le64(b, base + 0x30),
                            hash_table_size: le64(b, base + 0x38),
                            pfs0_offset: le64(b, base + 0x40),
                            pfs0_size: le64(b, base + 0x48),
                        },
                    )
                },
                section_ctr: b.subrange(base + 0x140, base + 0x148),
            },
        )
    } else {
        Err(ParseError::Unimplemented)
    }
}

/// The whole header, as a mathematical value.
pub struct NcaCtxModel {
    pub signature: Seq<u8>,
    pub modulus: Seq<u8>,
    pub file_version: NcaVersion,
    pub distribution_type: DistributionType,
    pub content_type: ContentType,
    pub key_generation_old: KeyGeneration,
    pub key_area_index: KeyAreaIndex,
    pub content_size: u64,
    pub program_id: u64,
    pub content_index: u32,
    pub sdk_addon_version: u32,
    pub key_generation: KeyGeneration,
    pub signature_key_generation: u8,
    pub rights_id: Seq<u8>,
    pub section_entries: Seq<FsEntry>,
    pub section_hashes: Seq<Seq<u8>>,
    pub encrypted_key_area: Seq<u8>,
    pub fs_headers: Seq<FsHeaderModel>,
}

/// The descriptor of section `i`.
pub open spec fn spec_fs_entry(b: Seq<u8>, i: int) -> FsEntry {
    FsEntry {
        start_block_offset: le32(b, 0x240 + 0x10 * i),
        end_block_offset: le32(b, 0x240 + 0x10 * i + 4),
        hash_sectors: le32(b, 0x240 + 0x10 * i + 8),
    }
}

/// The decoding of a full 0xC00-byte plaintext header buffer.  An
/// unknown magic is a format mismatch; advisory enumerations degrade to
/// their sentinels; an unsupported section filesystem type fails with
/// `Unimplemented`.
pub open spec fn spec_nca_parse(b: Seq<u8>) -> Result<NcaCtxModel, ParseError> {
    if b.len() != 0xC00 {
        Err(ParseError::TruncatedInput)
    } else {
        match spec_nca_version(le32(b, 0x200)) {
            None => Err(ParseError::FormatMismatch),
            Some(ver) => match spec_fs_header(b, 0x400) {
                Err(e) => Err(e),
                Ok(h0) => match spec_fs_header(b, 0x600) {
                    Err(e) => Err(e),
                    Ok(h1) => match spec_fs_header(b, 0x800) {
                        Err(e) => Err(e),
                        Ok(h2) => match spec_fs_header(b, 0xA00) {
                            Err(e) => Err(e),
                            Ok(h3) => Ok(
                                NcaCtxModel {
                                    signature: b.subrange(0, 0x100),
                                    modulus: b.subrange(0x100, 0x200),
                                    file_version: ver,
                                    distribution_type: spec_distribution_type(b[0x204]),
                                    content_type: spec_content_type(b[0x205]),
                                    key_generation_old: spec_key_generation(b[0x206]),
                                    key_area_index: spec_key_area_index(b[0x207]),
                                    content_size: le64(b, 0x208),
                                    program_id: le64(b, 0x210),
                                    content_index: le32(b, 0x218),
                                    sdk_addon_version: le32(b, 0x21C),
                                    key_generation: spec_key_generation(b[0x220]),
                                    signature_key_generation: b[0x221],
                                    rights_id: b.subrange(0x230, 0x240),
                                    section_entries: seq![
                                        spec_fs_entry(b, 0),
                                        spec_fs_entry(b, 1),
                                        spec_fs_entry(b, 2),
                                        spec_fs_entry(b, 3),
                                    ],
                                    section_hashes: seq![
                                        b.subrange(0x280, 0x2A0),
                                        b.subrange(0x2A0, 0x2C0),
                                        b.subrange(0x2C0, 0x2E0),
                                        b.subrange(0x2E0, 0x300),
                                    ],
                                    encrypted_key_area: b.subrange(0x300, 0x340),
                                    fs_headers: seq![h0, h1, h2, h3],
                                },
                            ),
                        },
                    },
                },
            },
        }
    }
}

/// The decoded per-section header carries exactly the model's fields.
pub open spec fn fs_header_matches(h: FsHeader, m: FsHeaderModel) -> bool {
    &&& h.partition_type == m.partition_type
    &&& h.fs_type == m.fs_type
    &&& h.encryption_type == m.encryption_type
    &&& match (h.superblock, m.superblock) {
        (SuperBlock::NoFs, SuperBlockModel::NoFs) => true,
        (SuperBlock::Pfs0(x), SuperBlockModel::Pfs0(y)) => {
            &&& x.master_hash@ == y.master_hash
            &&& x.block_size_bytes == y.block_size_bytes
            &&& x.hash_table_offset == y.hash_table_offset
            &&& x.hash_table_size == y.hash_table_size
            &&& x.pfs0_offset == y.pfs0_offset
            &&& x.pfs0_size == y.pfs0_size
        },
        _ => false,
    }
    &&& h.section_ctr@ == m.section_ctr
}

/// The decoded header carries exactly the model's fields.
pub open spec fn nca_ctx_matches(c: NcaFileCtx, m: NcaCtxModel) -> bool {
    &&& c.signature@ == m.signature
    &&& c.modulus@ == m.modulus
    &&& c.file_version == m.file_version
    &&& c.distribution_type == m.distribution_type
    &&& c.content_type == m.content_type
    &&& c.key_generation_old == m.key_generation_old
    &&& c.key_area_index == m.key_area_index
    &&& c.content_size == m.content_size
    &&& c.program_id == m.program_id
    &&& c.content_index == m.content_index
    &&& c.sdk_addon_version.0 == m.sdk_addon_version
    &&& c.key_generation == m.key_generation
    &&& c.signature_key_generation == m.signature_key_generation
    &&& c.rights_id@ == m.rights_id
    &&& c.section_entries@ == m.section_entries
    &&& c.section_hashes@.len() == 4
    &&& forall|i: int| 0 <= i < 4 ==> (#[trigger] c.section_hashes@[i])@ == m.section_hashes[i]
    &&& c.fs_headers@.len() == 4
    &&& forall|i: int| 0 <= i < 4 ==> fs_header_matches(#[trigger] c.fs_headers@[i], m.fs_headers[i])
}

/// One decode result matches the other: same error, or a structure
/// carrying exactly the model.
pub open spec fn nca_result_matches(r: Result<NcaFileCtx, ParseError>, m: Result<
    NcaCtxModel,
    ParseError,
>) -> bool {
    match (r, m) {
        (Ok(c), Ok(mm)) => nca_ctx_matches(c, mm),
        (Err(e), Err(em)) => e == em,
        _ => false,
    }
}

/// Decodes the per-section header at byte `base`.
fn decode_fs_header(b: &[u8], base: usize) -> (r: Result<FsHeader, ParseError>)
    requires
        base + 0x200 <= b@.len(),
    ensures
        r matches Ok(h) ==> spec_fs_header(b@, base as int) matches Ok(m) && fs_header_matches(
            h,
            m,
        ),
        r matches Err(e) ==> spec_fs_header(b@, base as int) == Err::<FsHeaderModel, _>(e),
{
    let _m: usize = b.len();
    let ft_raw = read_u8(b, base + 3);
    let fs_type = if ft_raw == 0 {
        FsType::NoFs
    } else if ft_raw == 2 {
        FsType::Pfs0
    } else if ft_raw == 3 {
        FsType::RomFs
    } else {
        FsType::Invalid
    };
    assert(fs_type == spec_fs_type(b@[base + 3]));
    if !(matches!(fs_type, FsType::NoFs) || matches!(fs_type, FsType::Pfs0)) {
        return Err(ParseError::Unimplemented);
    }
    let pt_raw = read_u8(b, base + 2);
    let partition_type = if pt_raw == 0 {
        PartitionType::RomFs
    } else if pt_raw == 1 {
        PartitionType::PartitionFs
    } else {
        PartitionType::Invalid
    };
    let et_raw = read_u8(b, base + 4);
    let encryption_type = if et_raw == 0 {
        EncryptionType::Auto
    } else if et_raw == 1 {
        EncryptionType::Plain
    } else if et_raw == 2 {
        EncryptionType::AesXts
    } else if et_raw == 3 {
        EncryptionType::AesCtr
    } else if et_raw == 4 {
        EncryptionType::AesCtrEx
    } else if et_raw == 5 {
        EncryptionType::AesCtrSkipLayerHash
    } else if et_raw == 6 {
        EncryptionType::AesCtrExSkipLayerHash
    } else {
        EncryptionType::Invalid
    };
    let superblock = if matches!(fs_type, FsType::NoFs) {
        SuperBlock::NoFs
    } else {
        SuperBlock::Pfs0(
            Pfs0SuperBlock {
                master_hash: bytes_range(b, base + 8, 0x20),
                block_size_bytes: read_u32_le(b, base + 0x28),
                hash_table_offset: read_u64_le(b, base + 0x30),
                hash_table_size: read_u64_le(b, base + 0x38),
                pfs0_offset: read_u64_le(b, base + 0x40),
                pfs0_size: read_u64_le(b, base + 0x48),
            },
        )
    };
    Ok(
        FsHeader {
            partition_type,
            fs_type,
            encryption_type,
            superblock,
            section_ctr: bytes_range(b, base + 0x140, 8),
        },
    )
}

/// Decodes an already-plaintext 0xC00-byte header buffer.
///
/// This is the structural half of the decoder: it assumes nothing about
/// how the buffer was obtained, so its contract is exact, and the
/// encrypted path is verified for every possible output of the cipher
/// unwrap.
pub fn parse_plaintext_header(b: &[u8]) -> (r: Result<NcaFileCtx, ParseError>)
    ensures
        nca_result_matches(r, spec_nca_parse(b@)),
{
    let n = b.len();
    if n != 0xC00 {
        return Err(ParseError::TruncatedInput);
    }
    let magic = read_u32_le(b, 0x200);
    let file_version = if magic == NCA0_MAGIC {
        NcaVersion::Nca0
    } else if magic == NCA1_MAGIC {
        NcaVersion::Nca1
    } else if magic == NCA2_MAGIC {
        NcaVersion::Nca2
    } else if magic == NCA3_MAGIC {
        NcaVersion::Nca3
    } else {
        return Err(ParseError::FormatMismatch);
    };
    assert(spec_nca_version(le32(b@, 0x200)) == Some(file_version));
    let h0 = decode_fs_header(b, 0x400)?;
    let h1 = decode_fs_header(b, 0x600)?;
    let h2 = decode_fs_header(b, 0x800)?;
    let h3 = decode_fs_header(b, 0xA00)?;
    let mut fs_headers: Vec<FsHeader> = Vec::new();
    fs_headers.push(h0);
    fs_headers.push(h1);
    fs_headers.push(h2);
    fs_headers.push(h3);
    let dt_raw = read_u8(b, 0x204);
    let distribution_type = if dt_raw == 0 {
        DistributionType::Download
    } else if dt_raw == 1 {
        DistributionType::GameCard
    } else {
        DistributionType::Invalid
    };
    let ct_raw = read_u8(b, 0x205);
    let content_type = if ct_raw == 0 {
        ContentType::Program
    } else if ct_raw == 1 {
        ContentType::Meta
    } else if ct_raw == 2 {
        ContentType::Control
    } else if ct_raw == 3 {
        ContentType::Manual
    } else if ct_raw == 4 {
        ContentType::Data
    } else if ct_raw == 5 {
        ContentType::PublicData
    } else {
        ContentType::Invalid
    };
    let key_generation_old = key_generation_from(read_u8(b, 0x206));
    let kai_raw = read_u8(b, 0x207);
    let key_area_index = if kai_raw == 0 {
        KeyAreaIndex::Application
    } else if kai_raw == 1 {
        KeyAreaIndex::Ocean
    } else if kai_raw == 2 {
        KeyAreaIndex::System
    } else {
        KeyAreaIndex::Invalid
    };
    let mut section_entries: Vec<FsEntry> = Vec::new();
    let mut section_hashes: Vec<Vec<u8>> = Vec::new();
    let mut i: usize = 0;
    while i < 4
        invariant
            i <= 4,
            b@.len() == 0xC00,
            section_entries@.len() == i,
            section_hashes@.len() == i,
            forall|j: int| 0 <= j < i ==> #[trigger] section_entries@[j] == spec_fs_entry(b@, j),
            forall|j: int|
                0 <= j < i ==> (#[trigger] section_hashes@[j])@ == b@.subrange(
                    0x280 + 0x20 * j,
                    0x2A0 + 0x20 * j,
                ),
        decreases 4 - i,
    {
        section_entries.push(
            FsEntry {
                start_block_offset: read_u32_le(b, 0x240 + 0x10 * i),
                end_block_offset: read_u32_le(b, 0x240 + 0x10 * i + 4),
                hash_sectors: read_u32_le(b, 0x240 + 0x10 * i + 8),
            },
        );
        section_hashes.push(bytes_range(b, 0x280 + 0x20 * i, 0x20));
        i += 1;
    }
    let ctx = NcaFileCtx {
        signature: bytes_range(b, 0, 0x100),
        modulus: bytes_range(b, 0x100, 0x100),
        file_version,
        distribution_type,
        content_type,
        key_generation_old,
        key_area_index,
        content_size: read_u64_le(b, 0x208),
        program_id: read_u64_le(b, 0x210),
        content_index: read_u32_le(b, 0x218),
        sdk_addon_version: SdkAddonVersion(read_u32_le(b, 0x21C)),
        key_generation: key_generation_from(read_u8(b, 0x220)),
        signature_key_generation: read_u8(b, 0x221),
        rights_id: bytes_range(b, 0x230, 0x10),
        section_entries,
        section_hashes,
        encrypted_key_area: bytes_range(b, 0x300, 0x40),
        fs_headers,
    };
    proof {
        let m = spec_nca_parse(b@).unwrap();
        assert(ctx.section_entries@ =~= m.section_entries);
    }
    Ok(ctx)
}

/// The key generation a raw byte denotes.
fn key_generation_from(v: u8) -> (r: KeyGeneration)
    ensures
        r == spec_key_generation(v),
{
    if v == 0 {
        KeyGeneration::OldOne
    } else if v == 1 {
        KeyGeneration::Unused
    } else if v == 2 {
        KeyGeneration::OldThree
    } else if v == 3 {
        KeyGeneration::ThreeZeroOne
    } else if v == 4 {
        KeyGeneration::Four
    } else if v == 5 {
        KeyGeneration::Five
    } else if v == 6 {
        KeyGeneration::Six
    } else if v == 7 {
        KeyGeneration::SixTwo
    } else if v == 8 {
        KeyGeneration::Seven
    } else if v == 9 {
        KeyGeneration::EightOne
    } else if v == 10 {
        KeyGeneration::Nine
    } else if v == 11 {
        KeyGeneration::NineOne
    } else if v == 12 {
        KeyGeneration::TwelveOne
    } else if v == 13 {
        KeyGeneration::Thirteen
    } else if v == 14 {
        KeyGeneration::Fourteen
    } else if v == 15 {
        KeyGeneration::Fifteen
    } else {
        KeyGeneration::Invalid
    }
}

/// A header buffer padded with zeroes to the full 0xC00 bytes, for the
/// accepted short form.
pub open spec fn nca_padded(b: Seq<u8>) -> Seq<u8> {
    if b.len() >= 0xC00 {
        b
    } else {
        b + Seq::new((0xC00 - b.len()) as nat, |i: int| 0u8)
    }
}

/// Whether a full header buffer is stored unencrypted: the magic is a
/// known unencrypted version tag and the reserved window at
/// `[0x340, 0x400)` is all zero.
pub open spec fn nca_is_plaintext(b: Seq<u8>) -> bool {
    &&& (le32(b, 0x200) == NCA2_MAGIC || le32(b, 0x200) == NCA3_MAGIC)
    &&& all_zero(b.subrange(0x340, 0x400))
}

/// Any single set bit in the reserved window forces the decrypt path.
pub proof fn lemma_nonzero_window_forces_decrypt(b: Seq<u8>, i: int)
    requires
        b.len() == 0xC00,
        0x340 <= i < 0x400,
        b[i] != 0,
    ensures
        !nca_is_plaintext(b),
{
    assert(b.subrange(0x340, 0x400)[i - 0x340] != 0);
}

/// The header key slot holds no material: unset slots are all-zero.
pub open spec fn header_key_missing(keys: NcaKeys) -> bool {
    all_zero(keys.header_key@)
}

/// What the cipher unwrap of the encrypted header region yields for a
/// given header key and ciphertext.  The result depends on the key and
/// the bytes alone.
pub uninterp spec fn xts_unwrap(key: Seq<u8>, data: Seq<u8>) -> Seq<u8>;

/// The big-endian bytes of a sector index, used as the cipher tweak.
fn sector_tweak(sector: u128) -> (r: [u8; 16]) {
    [
        (sector >> 120) as u8,
        (sector >> 112) as u8,
        (sector >> 104) as u8,
        (sector >> 96) as u8,
        (sector >> 88) as u8,
        (sector >> 80) as u8,
        (sector >> 72) as u8,
        (sector >> 64) as u8,
        (sector >> 56) as u8,
        (sector >> 48) as u8,
        (sector >> 40) as u8,
        (sector >> 32) as u8,
        (sector >> 24) as u8,
        (sector >> 16) as u8,
        (sector >> 8) as u8,
        sector as u8,
    ]
}

/// Relies on xts_mode::Xts128::decrypt_area over two aes::Aes128 block
/// ciphers built from the halves of the 32-byte header key: an in-place,
/// length-preserving decryption in 512-byte sectors, deterministic in
/// the key and ciphertext, with the big-endian sector index as tweak,
/// sectors counted from the start of the area.
#[verifier::external_body]
fn xts_decrypt_header_area(key: &[u8], data: Vec<u8>) -> (r: Vec<u8>)
    requires
        key@.len() == 32,
        data@.len() % 0x200 == 0,
    ensures
        r@ == xts_unwrap(key@, data@),
        r@.len() == data@.len(),
{
    let mut area = data;
    let k1 = aes::cipher::generic_array::GenericArray::from_slice(&key[..16]);
    let k2 = aes::cipher::generic_array::GenericArray::from_slice(&key[16..]);
    let c1 = <aes::Aes128 as aes::cipher::KeyInit>::new(k1);
    let c2 = <aes::Aes128 as aes::cipher::KeyInit>::new(k2);
    let xts = xts_mode::Xts128::new(c1, c2);
    xts.decrypt_area(&mut area, 0x200, 0, sector_tweak);
    area
}

/// The buffer a full header parse works on: the padded input itself when
/// it is stored unencrypted, otherwise the unencrypted preamble followed
/// by the cipher unwrap of everything from byte 0x200 on.
pub open spec fn nca_effective(b: Seq<u8>, key: Seq<u8>) -> Seq<u8> {
    let p = nca_padded(b);
    if nca_is_plaintext(p) {
        p
    } else {
        p.take(0x200) + xts_unwrap(key, p.skip(0x200))
    }
}

impl NcaFileCtx {
    /// Decodes a content-archive header from its raw bytes, unwrapping
    /// the encrypted region first when the plaintext detection does not
    /// pass.
    ///
    /// Both the full and the short historical header lengths are
    /// accepted; the short form is padded with zeroes.  Decryption
    /// requires the key store's header key: an all-zero slot is a
    /// missing key.
    pub fn parse_header(b: &[u8], keys: &NcaKeys) -> (r: Result<NcaFileCtx, ParseError>)
        requires
            keys.wf(),
        ensures
            b@.len() != 0xA00 && b@.len() != 0xC00 ==> r == Err::<NcaFileCtx, ParseError>(
                ParseError::TruncatedInput,
            ),
            (b@.len() == 0xA00 || b@.len() == 0xC00) && nca_is_plaintext(nca_padded(b@))
                ==> nca_result_matches(r, spec_nca_parse(nca_padded(b@))),
            (b@.len() == 0xA00 || b@.len() == 0xC00) && !nca_is_plaintext(nca_padded(b@))
                && header_key_missing(*keys) ==> r == Err::<NcaFileCtx, ParseError>(
                ParseError::MissingKey,
            ),
            (b@.len() == 0xA00 || b@.len() == 0xC00) && !nca_is_plaintext(nca_padded(b@))
                && !header_key_missing(*keys) ==> nca_result_matches(
                r,
                spec_nca_parse(nca_effective(b@, keys.header_key@)),
            ),
    {
        let n = b.len();
        if n != 0xA00 && n != 0xC00 {
            return Err(ParseError::TruncatedInput);
        }
        let mut buf: Vec<u8> = slice_to_vec(b);
        while buf.len() < 0xC00
            invariant
                b@.len() <= buf@.len() <= 0xC00,
                buf@.subrange(0, b@.len() as int) == b@,
                forall|j: int| b@.len() <= j < buf@.len() ==> buf@[j] == 0,
            decreases 0xC00 - buf@.len(),
        {
            buf.push(0);
        }
        proof {
            assert(buf@ =~= nca_padded(b@));
        }
        let magic = read_u32_le(buf.as_slice(), 0x200);
        let window_zero = is_zero_range(buf.as_slice(), 0x340, 0xC0);
        if (magic == NCA2_MAGIC || magic == NCA3_MAGIC) && window_zero {
            assert(nca_is_plaintext(buf@));
            return parse_plaintext_header(buf.as_slice());
        }
        assert(!nca_is_plaintext(nca_padded(b@)));
        if is_zero_range(keys.header_key.as_slice(), 0, 0x20) {
            proof {
                assert(keys.header_key@.subrange(0, 0x20) =~= keys.header_key@);
            }
            return Err(ParseError::MissingKey);
        }
        proof {
            assert(keys.header_key@.subrange(0, 0x20) =~= keys.header_key@);
        }
        let region = bytes_range(buf.as_slice(), 0x200, 0xA00);
        proof {
            assert(region@ =~= nca_padded(b@).skip(0x200));
        }
        let decrypted = xts_decrypt_header_area(keys.header_key.as_slice(), region);
        let mut full = bytes_range(buf.as_slice(), 0, 0x200);
        let mut tail = decrypted;
        full.append(&mut tail);
        proof {
            assert(full@ =~= nca_effective(b@, keys.header_key@));
        }
        parse_plaintext_header(full.as_slice())
    }
}

impl SdkAddonVersion {
    /// The whole raw word.
    pub fn raw(&self) -> (r: u32)
        ensures
            r == self.0,
    {
        self.0
    }

    /// Bits 0..=7 of the raw word.
    pub fn revision(&self) -> (r: u8)
        ensures
            r == (self.0 & 0xFF) as u8,
    {
        (self.0 & 0xFF) as u8
    }

    /// Bits 8..=15 of the raw word.
    pub fn micro(&self) -> (r: u8)
        ensures
            r == ((self.0 >> 8) & 0xFF) as u8,
    {
        ((self.0 >> 8) & 0xFF) as u8
    }

    /// Bits 16..=23 of the raw word.
    pub fn minor(&self) -> (r: u8)
        ensures
            r == ((self.0 >> 16) & 0xFF) as u8,
    {
        ((self.0 >> 16) & 0xFF) as u8
    }

    /// Bits 24..=31 of the raw word.
    pub fn major(&self) -> (r: u8)
        ensures
            r == ((self.0 >> 24) & 0xFF) as u8,
    {
        ((self.0 >> 24) & 0xFF) as u8
    }
}

} // verus!

