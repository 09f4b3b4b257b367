//! The hashed partition-archive format.
//!
//! Identical to the plain format except that each 0x40-byte file record
//! additionally carries the length of a hashed prefix of the file and the
//! digest of that prefix, and that each record's contents are captured at
//! decode time.

use vstd::prelude::*;
use crate::bytes::{bytes_range, le32, le64, read_u32_le, read_u64_le};
use crate::error::ParseError;
use crate::pfs0::{find_nul, lemma_find_nul_props, spec_find_nul};

verus! {

/// The 4-byte magic of a hashed partition archive, little endian.
pub const HFS0_MAGIC: u32 = 0x30534648;

/// One decoded file record of the hashed variant.
#[derive(Debug, PartialEq, Eq)]
pub struct Hfs0FileEntry {
    /// Absolute byte offset of the file contents inside the archive.
    pub file_offset: u64,
    /// Size of the file contents in bytes.
    pub file_size: u64,
    /// The file name, as the raw bytes stored in the string table.
    pub file_name: Vec<u8>,
    /// Length of the hashed region at the start of the file.
    pub hashed_prefix_len: u32,
    /// Digest of the first `hashed_prefix_len` bytes of the file.
    pub file_prefix_hash: Vec<u8>,
    /// The file contents.
    pub file_data: Vec<u8>,
}

/// A decoded hashed partition archive: its file records in on-disk order.
#[derive(Debug, PartialEq, Eq)]
pub struct Hfs0 {
    pub files: Vec<Hfs0FileEntry>,
}

/// Number of file records the header declares.
pub open spec fn hfs0_count(b: Seq<u8>) -> int {
    le32(b, 4) as int
}

/// Start of the string table: header plus entry table.
pub open spec fn hfs0_string_table_start(b: Seq<u8>) -> int {
    0x10 + 0x40 * hfs0_count(b)
}

/// Start of the file-data region: string table start plus its size.
pub open spec fn hfs0_file_data_start(b: Seq<u8>) -> int {
    hfs0_string_table_start(b) + le32(b, 8)
}

/// Byte offset of record `i` in the entry table.
pub open spec fn hfs0_entry_base(i: int) -> int {
    0x10 + 0x40 * i
}

/// Record `i`'s data offset, relative to the file-data region.
pub open spec fn hfs0_entry_rel_offset(b: Seq<u8>, i: int) -> int {
    le64(b, hfs0_entry_base(i)) as int
}

/// Record `i`'s file size.
pub open spec fn hfs0_entry_size(b: Seq<u8>, i: int) -> int {
    le64(b, hfs0_entry_base(i) + 8) as int
}

/// Absolute position of record `i`'s name in the string table.
pub open spec fn hfs0_entry_name_pos(b: Seq<u8>, i: int) -> int {
    hfs0_string_table_start(b) + le32(b, hfs0_entry_base(i) + 0x10)
}

/// Record `i`'s hashed-prefix length.
pub open spec fn hfs0_entry_hashed_prefix_len(b: Seq<u8>, i: int) -> u32 {
    le32(b, hfs0_entry_base(i) + 0x14)
}

/// Record `i`'s prefix digest: the 32 bytes at the end of the record.
pub open spec fn hfs0_entry_prefix_hash(b: Seq<u8>, i: int) -> Seq<u8> {
    b.subrange(hfs0_entry_base(i) + 0x20, hfs0_entry_base(i) + 0x40)
}

/// Absolute position of record `i`'s data.
pub open spec fn hfs0_entry_abs_offset(b: Seq<u8>, i: int) -> int {
    hfs0_file_data_start(b) + hfs0_entry_rel_offset(b, i)
}

/// Record `i` is acceptable: its name terminates inside the buffer and its
/// data range stays within the backing length.
pub open spec fn hfs0_entry_ok(b: Seq<u8>, i: int) -> bool {
    &&& 0 <= hfs0_entry_name_pos(b, i)
    &&& spec_find_nul(b, hfs0_entry_name_pos(b, i)) is Some
    &&& hfs0_entry_abs_offset(b, i) + hfs0_entry_size(b, i) <= b.len()
}

/// Record `i`'s name: the bytes from its name position up to the first
/// zero byte.
pub open spec fn hfs0_entry_name(b: Seq<u8>, i: int) -> Seq<u8> {
    b.subrange(
        hfs0_entry_name_pos(b, i),
        spec_find_nul(b, hfs0_entry_name_pos(b, i)).unwrap(),
    )
}

/// Record `i`'s contents: its resolved byte range.
pub open spec fn hfs0_entry_data(b: Seq<u8>, i: int) -> Seq<u8> {
    b.subrange(
        hfs0_entry_abs_offset(b, i),
        hfs0_entry_abs_offset(b, i) + hfs0_entry_size(b, i),
    )
}

/// The bytes are a well-formed hashed partition archive.
pub open spec fn hfs0_ok(b: Seq<u8>) -> bool {
    &&& b.len() >= 0x10
    &&& le32(b, 0) == HFS0_MAGIC
    &&& hfs0_file_data_start(b) <= b.len()
    &&& forall|i: int| 0 <= i < hfs0_count(b) ==> hfs0_entry_ok(b, i)
}

/// The error `decode` reports on a malformed archive.
pub open spec fn hfs0_err(b: Seq<u8>) -> ParseError {
    if b.len() < 0x10 {
        ParseError::TruncatedInput
    } else if le32(b, 0) != HFS0_MAGIC {
        ParseError::FormatMismatch
    } else {
        ParseError::OutOfBounds
    }
}

/// `h` is exactly the decoding of `b`.
pub open spec fn hfs0_matches(h: Hfs0, b: Seq<u8>) -> bool {
    &&& hfs0_ok(b)
    &&& h.files@.len() == hfs0_count(b)
    &&& forall|i: int|
        0 <= i < hfs0_count(b) ==> {
            &&& (#[trigger] h.files@[i]).file_offset as int == hfs0_entry_abs_offset(b, i)
            &&& h.files@[i].file_size as int == hfs0_entry_size(b, i)
            &&& h.files@[i].file_name@ == hfs0_entry_name(b, i)
            &&& h.files@[i].hashed_prefix_len == hfs0_entry_hashed_prefix_len(b, i)
            &&& h.files@[i].file_prefix_hash@ == hfs0_entry_prefix_hash(b, i)
            &&& h.files@[i].file_data@ == hfs0_entry_data(b, i)
        }
}

impl Hfs0 {
    /// Decodes a hashed partition archive from its backing bytes.
    ///
    /// Succeeds exactly on well-formed archives; every record's data range
    /// and name are validated against the backing length, and the record's
    /// contents, hashed-prefix length and prefix digest are captured.
    pub fn decode(b: &[u8]) -> (r: Result<Hfs0, ParseError>)
        ensures
            hfs0_ok(b@) <==> r is Ok,
            r matches Ok(h) ==> hfs0_matches(h, b@),
            r matches Err(e) ==> e == hfs0_err(b@),
    {
        let n: usize = b.len();
        if n < 0x10 {
            return Err(ParseError::TruncatedInput);
        }
        let magic = read_u32_le(b, 0);
        if magic != HFS0_MAGIC {
            return Err(ParseError::FormatMismatch);
        }
        let file_count = read_u32_le(b, 4);
        let string_table_byte_size = read_u32_le(b, 8);
        let sts: u64 = 0x10u64 + (file_count as u64) * 0x40u64;
        let fds: u64 = sts + string_table_byte_size as u64;
        assert(sts == hfs0_string_table_start(b@));
        assert(fds == hfs0_file_data_start(b@));
        if fds > n as u64 {
            return Err(ParseError::OutOfBounds);
        }
        let mut files: Vec<Hfs0FileEntry> = Vec::new();
        let mut i: usize = 0;
        while i < file_count as usize
            invariant
                0 <= i <= hfs0_count(b@),
                n == b@.len(),
                b@.len() >= 0x10,
                le32(b@, 0) == HFS0_MAGIC,
                file_count == le32(b@, 4),
                sts == hfs0_string_table_start(b@),
                fds == hfs0_file_data_start(b@),
                fds <= n,
                files@.len() == i,
                forall|j: int| 0 <= j < i ==> hfs0_entry_ok(b@, j),
                forall|j: int|
                    0 <= j < i ==> {
                        &&& (#[trigger] files@[j]).file_offset as int == hfs0_entry_abs_offset(
                            b@,
                            j,
                        )
                        &&& files@[j].file_size as int == hfs0_entry_size(b@, j)
                        &&& files@[j].file_name@ == hfs0_entry_name(b@, j)
                        &&& files@[j].hashed_prefix_len == hfs0_entry_hashed_prefix_len(b@, j)
                        &&& files@[j].file_prefix_hash@ == hfs0_entry_prefix_hash(b@, j)
                        &&& files@[j].file_data@ == hfs0_entry_data(b@, j)
                    },
            decreases file_count - i,
        {
            let base: usize = 0x10 + i * 0x40;
            assert(base + 0x40 <= sts);
            let rel_offset = read_u64_le(b, base);
            let file_size = read_u64_le(b, base + 8);
            let name_ptr = read_u32_le(b, base + 0x10);
            let hashed_prefix_len = read_u32_le(b, base + 0x14);
            let file_prefix_hash = bytes_range(b, base + 0x20, 0x20);
            let name_pos: u64 = sts + name_ptr as u64;
            assert(name_pos == hfs0_entry_name_pos(b@, i as int));
            if name_pos > n as u64 {
                assert(spec_find_nul(b@, name_pos as int) is None);
                assert(!hfs0_entry_ok(b@, i as int));
                return Err(ParseError::OutOfBounds);
            }
            let name_end = match find_nul(b, name_pos as usize) {
                Some(j) => j,
                None => {
                    assert(!hfs0_entry_ok(b@, i as int));
                    return Err(ParseError::OutOfBounds);
                },
            };
            proof {
                lemma_find_nul_props(b@, name_pos as int);
            }
            let abs: u64 = match crate::bytes::resolve_range(fds, rel_offset, file_size, n as u64) {
                Ok(v) => v,
                Err(e) => {
                    assert(!hfs0_entry_ok(b@, i as int));
                    return Err(e);
                },
            };
            assert(hfs0_entry_ok(b@, i as int));
            let file_name = bytes_range(b, name_pos as usize, name_end - (name_pos as usize));
            let file_data = bytes_range(b, abs as usize, file_size as usize);
            assert(file_name@ == hfs0_entry_name(b@, i as int));
            assert(file_data@ == hfs0_entry_data(b@, i as int));
            files.push(
                Hfs0FileEntry {
                    file_offset: abs,
                    file_size,
                    file_name,
                    hashed_prefix_len,
                    file_prefix_hash,
                    file_data,
                },
            );
            i += 1;
        }
        Ok(Hfs0 { files })
    }
}

/// Decoding is deterministic: two structures decoded from the same bytes
/// agree on every record's fields.
pub proof fn lemma_hfs0_decode_deterministic(h1: Hfs0, h2: Hfs0, b: Seq<u8>)
    requires
        hfs0_matches(h1, b),
        hfs0_matches(h2, b),
    ensures
        h1.files@.len() == h2.files@.len(),
        forall|i: int|
            0 <= i < h1.files@.len() ==> {
                &&& (#[trigger] h1.files@[i]).file_offset == h2.files@[i].file_offset
                &&& h1.files@[i].file_size == h2.files@[i].file_size
                &&& h1.files@[i].file_name@ == h2.files@[i].file_name@
                &&& h1.files@[i].hashed_prefix_len == h2.files@[i].hashed_prefix_len
                &&& h1.files@[i].file_prefix_hash@ == h2.files@[i].file_prefix_hash@
                &&& h1.files@[i].file_data@ == h2.files@[i].file_data@
            },
{
}

} // verus!
