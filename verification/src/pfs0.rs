//! The plain partition-archive format: a magic tag, a file-record table,
//! a shared string table holding the file names, then the raw file data.
//!
//! Record offsets are relative to the start of the file-data region; names
//! are offsets into the string table.  `decode` validates every offset
//! against the backing length before a record is accepted, so the later
//! read operations can only fail with `NotFound`.

use vstd::prelude::*;
use crate::bytes::{bytes_range, le32, le64, read_u32_le, read_u64_le, read_u8};
use crate::error::ParseError;

verus! {

/// The 4-byte magic of a plain partition archive, little endian.
pub const PFS0_MAGIC: u32 = 0x30534650;

/// One decoded file record, with its offset already resolved to an
/// absolute position inside the archive bytes.
#[derive(Debug, PartialEq, Eq)]
pub struct Pfs0FileRecord {
    /// Absolute byte offset of the file contents inside the archive.
    pub file_offset: u64,
    /// Size of the file contents in bytes.
    pub file_size: u64,
    /// The file name, as the raw bytes stored in the string table.
    pub file_name: Vec<u8>,
}

/// The fixed archive header.
#[derive(Debug, Clone, Copy, PartialEq, Eq, Structural)]
pub struct Pfs0Header {
    /// Number of embedded files.
    pub file_count: u32,
    /// Size of the file-name string table in bytes.
    pub string_table_byte_size: u32,
}

/// A decoded plain partition archive: the header plus the file records in
/// on-disk order.
#[derive(Debug, PartialEq, Eq)]
pub struct Pfs0 {
    pub header: Pfs0Header,
    pub files: Vec<Pfs0FileRecord>,
}

/// The position of the first zero byte at or after `i`, if any.
pub open spec fn spec_find_nul(b: Seq<u8>, i: int) -> Option<int>
    decreases b.len() - i,
{
    if i < 0 || i >= b.len() {
        None
    } else if b[i] == 0 {
        Some(i)
    } else {
        spec_find_nul(b, i + 1)
    }
}

/// Number of file records the header declares.
pub open spec fn pfs0_count(b: Seq<u8>) -> int {
    le32(b, 4) as int
}

/// Start of the string table: header plus entry table.
pub open spec fn pfs0_string_table_start(b: Seq<u8>) -> int {
    0x10 + 0x18 * pfs0_count(b)
}

/// Start of the file-data region: string table start plus its size.
pub open spec fn pfs0_file_data_start(b: Seq<u8>) -> int {
    pfs0_string_table_start(b) + le32(b, 8)
}

/// Byte offset of record `i` in the entry table.
pub open spec fn pfs0_entry_base(i: int) -> int {
    0x10 + 0x18 * i
}

/// Record `i`'s data offset, relative to the file-data region.
pub open spec fn pfs0_entry_rel_offset(b: Seq<u8>, i: int) -> int {
    le64(b, pfs0_entry_base(i)) as int
}

/// Record `i`'s file size.
pub open spec fn pfs0_entry_size(b: Seq<u8>, i: int) -> int {
    le64(b, pfs0_entry_base(i) + 8) as int
}

/// Absolute position of record `i`'s name in the string table.
pub open spec fn pfs0_entry_name_pos(b: Seq<u8>, i: int) -> int {
    pfs0_string_table_start(b) + le32(b, pfs0_entry_base(i) + 16)
}

/// Absolute position of record `i`'s data.
pub open spec fn pfs0_entry_abs_offset(b: Seq<u8>, i: int) -> int {
    pfs0_file_data_start(b) + pfs0_entry_rel_offset(b, i)
}

/// Record `i` is acceptable: its name terminates inside the buffer and its
/// data range stays within the backing length.
pub open spec fn pfs0_entry_ok(b: Seq<u8>, i: int) -> bool {
    &&& 0 <= pfs0_entry_name_pos(b, i)
    &&& spec_find_nul(b, pfs0_entry_name_pos(b, i)) is Some
    &&& pfs0_entry_abs_offset(b, i) + pfs0_entry_size(b, i) <= b.len()
}

/// Record `i`'s name: the bytes from its name position up to the first
/// zero byte.
pub open spec fn pfs0_entry_name(b: Seq<u8>, i: int) -> Seq<u8> {
    b.subrange(
        pfs0_entry_name_pos(b, i),
        spec_find_nul(b, pfs0_entry_name_pos(b, i)).unwrap(),
    )
}

/// The bytes are a well-formed plain partition archive.
pub open spec fn pfs0_ok(b: Seq<u8>) -> bool {
    &&& b.len() >= 0x10
    &&& le32(b, 0) == PFS0_MAGIC
    &&& pfs0_file_data_start(b) <= b.len()
    &&& forall|i: int| 0 <= i < pfs0_count(b) ==> pfs0_entry_ok(b, i)
}

/// The error `decode` reports when the bytes are not a well-formed
/// archive: truncation and magic faults are told apart from range faults.
pub open spec fn pfs0_err(b: Seq<u8>) -> ParseError {
    if b.len() < 0x10 {
        ParseError::TruncatedInput
    } else if le32(b, 0) != PFS0_MAGIC {
        ParseError::FormatMismatch
    } else {
        ParseError::OutOfBounds
    }
}

/// `p` is exactly the decoding of `b`: header scalars, record count, and
/// every record's resolved offset, size and name.
pub open spec fn pfs0_matches(p: Pfs0, b: Seq<u8>) -> bool {
    &&& pfs0_ok(b)
    &&& p.header.file_count == le32(b, 4)
    &&& p.header.string_table_byte_size == le32(b, 8)
    &&& p.files@.len() == pfs0_count(b)
    &&& forall|i: int|
        0 <= i < pfs0_count(b) ==> {
            &&& (#[trigger] p.files@[i]).file_offset as int == pfs0_entry_abs_offset(b, i)
            &&& p.files@[i].file_size as int == pfs0_entry_size(b, i)
            &&& p.files@[i].file_name@ == pfs0_entry_name(b, i)
        }
}

/// A found terminator lies between the scan start and the end of the
/// buffer, and it really is the first zero byte.
pub proof fn lemma_find_nul_props(b: Seq<u8>, i: int)
    ensures
        match spec_find_nul(b, i) {
            Some(j) => i <= j < b.len() && b[j] == 0,
            None => true,
        },
    decreases b.len() - i,
{
    if i < 0 || i >= b.len() {
    } else if b[i] == 0 {
    } else {
        lemma_find_nul_props(b, i + 1);
    }
}

/// Scans for the first zero byte at or after `start`.
pub fn find_nul(b: &[u8], start: usize) -> (r: Option<usize>)
    ensures
        match r {
            Some(j) => spec_find_nul(b@, start as int) == Some(j as int),
            None => spec_find_nul(b@, start as int) is None,
        },
    decreases b@.len() - start,
{
    if start >= b.len() {
        None
    } else if read_u8(b, start) == 0 {
        Some(start)
    } else {
        find_nul(b, start + 1)
    }
}

impl Pfs0 {
    /// Decodes a plain partition archive from its backing bytes.
    ///
    /// Succeeds exactly on well-formed archives, and then returns the
    /// uniquely determined header and record table; every record's data
    /// range and name are validated against the backing length here, so no
    /// later read can run out of bounds.
    pub fn decode(b: &[u8]) -> (r: Result<Pfs0, ParseError>)
        ensures
            pfs0_ok(b@) <==> r is Ok,
            r matches Ok(p) ==> pfs0_matches(p, b@),
            r matches Err(e) ==> e == pfs0_err(b@),
    {
        let n: usize = b.len();
        if n < 0x10 {
            return Err(ParseError::TruncatedInput);
        }
        let magic = read_u32_le(b, 0);
        if magic != PFS0_MAGIC {
            return Err(ParseError::FormatMismatch);
        }
        let file_count = read_u32_le(b, 4);
        let string_table_byte_size = read_u32_le(b, 8);
        let sts: u64 = 0x10u64 + (file_count as u64) * 0x18u64;
        let fds: u64 = sts + string_table_byte_size as u64;
        assert(sts == pfs0_string_table_start(b@));
        assert(fds == pfs0_file_data_start(b@));
        if fds > n as u64 {
            return Err(ParseError::OutOfBounds);
        }
        let mut files: Vec<Pfs0FileRecord> = Vec::new();
        let mut i: usize = 0;
        while i < file_count as usize
            invariant
                0 <= i <= pfs0_count(b@),
                n == b@.len(),
                b@.len() >= 0x10,
                le32(b@, 0) == PFS0_MAGIC,
                file_count == le32(b@, 4),
                string_table_byte_size == le32(b@, 8),
                sts == pfs0_string_table_start(b@),
                fds == pfs0_file_data_start(b@),
                fds <= n,
                files@.len() == i,
                forall|j: int| 0 <= j < i ==> pfs0_entry_ok(b@, j),
                forall|j: int|
                    0 <= j < i ==> {
                        &&& (#[trigger] files@[j]).file_offset as int == pfs0_entry_abs_offset(
                            b@,
                            j,
                        )
                        &&& files@[j].file_size as int == pfs0_entry_size(b@, j)
                        &&& files@[j].file_name@ == pfs0_entry_name(b@, j)
                    },
            decreases file_count - i,
        {
            let base: usize = 0x10 + i * 0x18;
            assert(base + 0x18 <= sts);
            let rel_offset = read_u64_le(b, base);
            let file_size = read_u64_le(b, base + 8);
            let name_ptr = read_u32_le(b, base + 16);
            let name_pos: u64 = sts + name_ptr as u64;
            assert(name_pos == pfs0_entry_name_pos(b@, i as int));
            if name_pos > n as u64 {
                assert(spec_find_nul(b@, name_pos as int) is None);
                assert(!pfs0_entry_ok(b@, i as int));
                return Err(ParseError::OutOfBounds);
            }
            let name_end = match find_nul(b, name_pos as usize) {
                Some(j) => j,
                None => {
                    assert(!pfs0_entry_ok(b@, i as int));
                    return Err(ParseError::OutOfBounds);
                },
            };
            proof {
                lemma_find_nul_props(b@, name_pos as int);
            }
            let abs: u64 = match crate::bytes::resolve_range(fds, rel_offset, file_size, n as u64) {
                Ok(v) => v,
                Err(e) => {
                    assert(!pfs0_entry_ok(b@, i as int));
                    return Err(e);
                },
            };
            assert(pfs0_entry_ok(b@, i as int));
            let file_name = bytes_range(b, name_pos as usize, name_end - (name_pos as usize));
            assert(file_name@ == pfs0_entry_name(b@, i as int));
            files.push(Pfs0FileRecord { file_offset: abs, file_size, file_name });
            i += 1;
        }
        Ok(
            Pfs0 {
                header: Pfs0Header { file_count, string_table_byte_size },
                files,
            },
        )
    }
}

/// The first record at or after index `i` whose name is `name`.
pub open spec fn spec_find_file(files: Seq<Pfs0FileRecord>, name: Seq<u8>, i: int) -> Option<
    int,
>
    decreases files.len() - i,
{
    if i < 0 || i >= files.len() {
        None
    } else if files[i].file_name@ == name {
        Some(i)
    } else {
        spec_find_file(files, name, i + 1)
    }
}

/// The contents of one file: the record's resolved byte range out of the
/// archive bytes.
pub open spec fn pfs0_file_bytes(b: Seq<u8>, rec: Pfs0FileRecord) -> Seq<u8> {
    b.subrange(rec.file_offset as int, rec.file_offset + rec.file_size)
}

/// A found record index lies in range and names the requested file, and no
/// earlier record at or after the scan start does.
pub proof fn lemma_find_file_props(files: Seq<Pfs0FileRecord>, name: Seq<u8>, i: int)
    ensures
        match spec_find_file(files, name, i) {
            Some(j) => i <= j < files.len() && files[j].file_name@ == name,
            None => true,
        },
    decreases files.len() - i,
{
    if i < 0 || i >= files.len() {
    } else if files[i].file_name@ == name {
    } else {
        lemma_find_file_props(files, name, i + 1);
    }
}

/// If some record at or after `k` carries `name`, the scan finds one.
pub proof fn lemma_find_file_exists(files: Seq<Pfs0FileRecord>, name: Seq<u8>, k: int, i: int)
    requires
        0 <= k <= i < files.len(),
        files[i].file_name@ == name,
    ensures
        spec_find_file(files, name, k) is Some,
    decreases i - k,
{
    if files[k].file_name@ != name {
        lemma_find_file_exists(files, name, k + 1, i);
    }
}

/// Decoding is deterministic: two structures decoded from the same bytes
/// agree on the header and on every record's offset, size and name.
pub proof fn lemma_pfs0_decode_deterministic(p1: Pfs0, p2: Pfs0, b: Seq<u8>)
    requires
        pfs0_matches(p1, b),
        pfs0_matches(p2, b),
    ensures
        p1.header == p2.header,
        p1.files@.len() == p2.files@.len(),
        forall|i: int|
            0 <= i < p1.files@.len() ==> {
                &&& (#[trigger] p1.files@[i]).file_offset == p2.files@[i].file_offset
                &&& p1.files@[i].file_size == p2.files@[i].file_size
                &&& p1.files@[i].file_name@ == p2.files@[i].file_name@
            },
{
}

/// For every record of a decoded archive, looking its name up finds the
/// first record with that name, and the bytes it resolves to are exactly
/// that record's declared size, taken at its resolved absolute offset.
pub proof fn lemma_list_read_consistent(p: Pfs0, b: Seq<u8>, i: int)
    requires
        pfs0_matches(p, b),
        0 <= i < p.files@.len(),
    ensures
        spec_find_file(p.files@, p.files@[i].file_name@, 0) is Some,
        ({
            let j = spec_find_file(p.files@, p.files@[i].file_name@, 0).unwrap();
            &&& 0 <= j <= i
            &&& p.files@[j].file_name@ == p.files@[i].file_name@
            &&& pfs0_file_bytes(b, p.files@[j]).len() == p.files@[j].file_size
        }),
{
    lemma_find_file_exists(p.files@, p.files@[i].file_name@, 0, i);
    lemma_find_file_props(p.files@, p.files@[i].file_name@, 0);
    let j = spec_find_file(p.files@, p.files@[i].file_name@, 0).unwrap();
    assert(pfs0_entry_ok(b, j));
    if j > i {
        assert(spec_find_file(p.files@, p.files@[i].file_name@, 0) is Some);
        lemma_find_file_first(p.files@, p.files@[i].file_name@, 0, i);
    }
}

/// The scan result is the *first* match: no record between the scan start
/// and the found index carries the name.
pub proof fn lemma_find_file_first(files: Seq<Pfs0FileRecord>, name: Seq<u8>, k: int, i: int)
    requires
        0 <= k <= i < files.len(),
        files[i].file_name@ == name,
        spec_find_file(files, name, k) is Some,
    ensures
        spec_find_file(files, name, k).unwrap() <= i,
    decreases i - k,
{
    if files[k].file_name@ != name {
        lemma_find_file_first(files, name, k + 1, i);
    }
}

/// A decoded archive together with its backing bytes, ready for named
/// reads.
#[derive(Debug)]
pub struct Pfs0Reader {
    /// The archive's backing bytes.
    pub data: Vec<u8>,
    /// The decoded structure.
    pub pfs: Pfs0,
}

impl Pfs0Reader {
    /// The structure is exactly the decoding of the backing bytes.
    pub open spec fn wf(self) -> bool {
        pfs0_matches(self.pfs, self.data@)
    }

    /// The backing bytes of the archive.
    pub open spec fn data_view(self) -> Seq<u8> {
        self.data@
    }

    /// Decodes an archive held in memory and keeps the bytes for reads.
    pub fn new(data: Vec<u8>) -> (r: Result<Pfs0Reader, ParseError>)
        ensures
            pfs0_ok(data@) <==> r is Ok,
            r matches Ok(rd) ==> rd.wf() && rd.data_view() == data@,
            r matches Err(e) ==> e == pfs0_err(data@),
    {
        match Pfs0::decode(data.as_slice()) {
            Ok(pfs) => Ok(Pfs0Reader { data, pfs }),
            Err(e) => Err(e),
        }
    }

    /// Lists the embedded file names in on-disk record order.
    pub fn list_files(&self) -> (r: Vec<Vec<u8>>)
        ensures
            r@.len() == self.pfs.files@.len(),
            forall|i: int|
                0 <= i < r@.len() ==> #[trigger] r@[i]@ == self.pfs.files@[i].file_name@,
    {
        let mut names: Vec<Vec<u8>> = Vec::new();
        let n = self.pfs.files.len();
        let mut i: usize = 0;
        while i < n
            invariant
                i <= n,
                n == self.pfs.files@.len(),
                names@.len() == i,
                forall|j: int|
                    0 <= j < i ==> #[trigger] names@[j]@ == self.pfs.files@[j].file_name@,
            decreases n - i,
        {
            let name = vstd::slice::slice_to_vec(self.pfs.files[i].file_name.as_slice());
            names.push(name);
            i += 1;
        }
        names
    }

    /// The index of the first record named `name`, if any.
    fn find_index(&self, name: &[u8]) -> (r: Option<usize>)
        ensures
            match r {
                Some(j) => spec_find_file(self.pfs.files@, name@, 0) == Some(j as int),
                None => spec_find_file(self.pfs.files@, name@, 0) is None,
            },
    {
        let n = self.pfs.files.len();
        let mut i: usize = 0;
        while i < n
            invariant
                i <= n,
                n == self.pfs.files@.len(),
                spec_find_file(self.pfs.files@, name@, 0) == spec_find_file(
                    self.pfs.files@,
                    name@,
                    i as int,
                ),
                forall|j: int| 0 <= j < i ==> (#[trigger] self.pfs.files@[j]).file_name@ != name@,
            decreases n - i,
        {
            if crate::bytes::bytes_eq(self.pfs.files[i].file_name.as_slice(), name) {
                return Some(i);
            }
            i += 1;
        }
        None
    }

    /// Returns the contents of the first file named `name`, or `NotFound`.
    ///
    /// Well-formedness guarantees the record's range was validated at
    /// decode time, so nothing else can fail.
    pub fn get_file_data(&self, name: &[u8]) -> (r: Result<Vec<u8>, ParseError>)
        requires
            self.wf(),
        ensures
            match spec_find_file(self.pfs.files@, name@, 0) {
                Some(j) => r matches Ok(v) && v@ == pfs0_file_bytes(
                    self.data_view(),
                    self.pfs.files@[j],
                ),
                None => r == Err::<Vec<u8>, ParseError>(ParseError::NotFound),
            },
    {
        match self.find_index(name) {
            Some(j) => {
                proof {
                    lemma_find_file_props(self.pfs.files@, name@, 0);
                    assert(self.pfs.files@[j as int].file_offset as int == pfs0_entry_abs_offset(
                        self.data@,
                        j as int,
                    ));
                    assert(pfs0_entry_ok(self.data@, j as int));
                }
                let _m: usize = self.data.len();
                let rec_offset = self.pfs.files[j].file_offset;
                let rec_size = self.pfs.files[j].file_size;
                Ok(bytes_range(self.data.as_slice(), rec_offset as usize, rec_size as usize))
            },
            None => Err(ParseError::NotFound),
        }
    }

    /// Appends the contents of the first file named `name` to `out`, in
    /// bounded chunks, or reports `NotFound` leaving `out` unchanged.
    pub fn read_file_into(&self, name: &[u8], out: &mut Vec<u8>) -> (r: Result<(), ParseError>)
        requires
            self.wf(),
        ensures
            match spec_find_file(self.pfs.files@, name@, 0) {
                Some(j) => r is Ok && final(out)@ == old(out)@ + pfs0_file_bytes(
                    self.data_view(),
                    self.pfs.files@[j],
                ),
                None => r == Err::<(), ParseError>(ParseError::NotFound) && final(out)@ == old(
                    out,
                )@,
            },
    {
        let j = match self.find_index(name) {
            Some(j) => j,
            None => {
                return Err(ParseError::NotFound);
            },
        };
        proof {
            lemma_find_file_props(self.pfs.files@, name@, 0);
            assert(pfs0_entry_ok(self.data@, j as int));
        }
        let rec_offset = self.pfs.files[j].file_offset;
        let rec_size = self.pfs.files[j].file_size;
        let b = self.data.as_slice();
        let _m: usize = b.len();
        let mut copied: u64 = 0;
        while copied < rec_size
            invariant
                0 <= copied <= rec_size,
                b@ == self.data@,
                rec_offset + rec_size <= b@.len(),
                b@.len() <= usize::MAX,
                out@ == old(out)@ + b@.subrange(rec_offset as int, rec_offset + copied),
            decreases rec_size - copied,
        {
            let remaining = rec_size - copied;
            let chunk: u64 = if remaining < 0x1000 {
                remaining
            } else {
                0x1000
            };
            let mut k: u64 = 0;
            while k < chunk
                invariant
                    0 <= k <= chunk,
                    copied + chunk <= rec_size,
                    b@ == self.data@,
                    rec_offset + rec_size <= b@.len(),
                    b@.len() <= usize::MAX,
                    out@ == old(out)@ + b@.subrange(rec_offset as int, rec_offset + copied + k),
                decreases chunk - k,
            {
                let pos = rec_offset + copied + k;
                let byte = read_u8(b, pos as usize);
                out.push(byte);
                proof {
                    assert(out@ =~= old(out)@ + b@.subrange(
                        rec_offset as int,
                        rec_offset + copied + k + 1,
                    ));
                }
                k += 1;
            }
            copied += chunk;
        }
        proof {
            assert(out@ == old(out)@ + pfs0_file_bytes(self.data@, self.pfs.files@[j as int]));
        }
        Ok(())
    }
}

} // verus!
