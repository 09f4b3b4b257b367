//! The program-metadata container: a fixed header, the embedded
//! permission record (as built), and the embedded signed permission
//! certificate (as declared), each with three offset-pointed variable
//! tables sharing one base position.
//!
//! The certificate's internal offsets are relative to its *own* start,
//! not to the outer file, so it is decoded from its own byte blob.

use vstd::prelude::*;
use crate::bytes::{bytes_range, le32, le64, read_u32_le, read_u64_le, read_u8};
use crate::caps::{decode_kernel_capabilities, spec_caps_from, KernelCapability};
use crate::error::{ParseError, Validity};
use crate::keys::{spec_acid_modulus, AcidModuli, KeysetType};

verus! {

/// The 4-byte tag of the outer program-metadata container.
pub const MAGIC_META: u32 = 0x4154454D;

/// The 4-byte tag of the embedded permission record.
pub const MAGIC_ACI0: u32 = 0x30494341;

/// The 4-byte tag of the embedded permission certificate.
pub const MAGIC_ACID: u32 = 0x44494341;

/// The filesystem-access capability bitmap: 37 named bits plus the
/// reserved debug and full-permission extremes.
#[derive(Debug, Clone, Copy, PartialEq, Eq, Structural)]
pub struct FsAccessFlags(pub u64);

/// The certificate's flag word: production bit, approval bit and the
/// memory-region field.
#[derive(Debug, Clone, Copy, PartialEq, Eq, Structural)]
pub struct AcidFlags(pub u32);

/// The outer header's flag byte: bitness and address-space layout.
#[derive(Debug, Clone, Copy, PartialEq, Eq, Structural)]
pub struct NpdmHeaderFlags(pub u8);

/// The length-and-role byte in front of each service name: the low three
/// bits are the name length, the top bit marks a server registration.
#[derive(Debug, Clone, Copy, PartialEq, Eq, Structural)]
pub struct ServiceRecordHeader(pub u8);

/// One service-access record: a non-null-terminated name and whether the
/// program registers (serves) it rather than merely using it.
#[derive(Debug, PartialEq, Eq)]
pub struct ServiceRecord {
    pub header: ServiceRecordHeader,
    pub service_name: Vec<u8>,
}

/// The service records encoded from byte offset `i` to the end of the
/// buffer, each as its header byte and name bytes.  A record whose name
/// would run past the declared byte count is a hard error.
pub open spec fn spec_services_from(b: Seq<u8>, i: int) -> Result<
    Seq<(u8, Seq<u8>)>,
    ParseError,
>
    decreases b.len() - i,
{
    if i < 0 || i > b.len() {
        Err(ParseError::TruncatedInput)
    } else if i == b.len() {
        Ok(Seq::empty())
    } else {
        let h = b[i];
        let l = (h & 7) as int;
        if i + 1 + l > b.len() {
            Err(ParseError::TruncatedInput)
        } else {
            match spec_services_from(b, i + 1 + l) {
                Ok(rest) => Ok(seq![(h, b.subrange(i + 1, i + 1 + l))] + rest),
                Err(e) => Err(e),
            }
        }
    }
}

/// The decoded records carry exactly the header bytes and names of the
/// model.
pub open spec fn services_match(v: Seq<ServiceRecord>, s: Seq<(u8, Seq<u8>)>) -> bool {
    &&& v.len() == s.len()
    &&& forall|k: int|
        0 <= k < v.len() ==> (#[trigger] v[k]).header.0 == s[k].0 && v[k].service_name@ == s[k].1
}

/// Decodes the service records from byte offset `i` to the end.
fn decode_services_from(b: &[u8], i: usize) -> (r: Result<Vec<ServiceRecord>, ParseError>)
    requires
        i <= b@.len(),
    ensures
        r matches Ok(v) ==> spec_services_from(b@, i as int) matches Ok(s) && services_match(
            v@,
            s,
        ),
        r matches Err(e) ==> spec_services_from(b@, i as int) == Err::<Seq<(u8, Seq<u8>)>, _>(e),
    decreases b@.len() - i,
{
    let n = b.len();
    if i == n {
        return Ok(Vec::new());
    }
    let h = read_u8(b, i);
    let l = (h & 7) as usize;
    if n - i - 1 < l {
        return Err(ParseError::TruncatedInput);
    }
    let service_name = bytes_range(b, i + 1, l);
    let mut rest = decode_services_from(b, i + 1 + l)?;
    let ghost rest0 = rest@;
    rest.insert(0, ServiceRecord { header: ServiceRecordHeader(h), service_name });
    proof {
        let s = spec_services_from(b@, i as int).unwrap();
        assert forall|k: int| 0 <= k < rest@.len() implies (#[trigger] rest@[k]).header.0 == s[k].0
            && rest@[k].service_name@ == s[k].1 by {
            if k > 0 {
                assert(rest@[k] == rest0[k - 1]);
            }
        }
    }
    Ok(rest)
}

/// One certificate filesystem-access-control record, as a mathematical
/// value.
pub struct AcidFacModel {
    pub version: u8,
    pub content_owner_id_count: u8,
    pub save_data_owner_id_count: u8,
    pub flags: u64,
    pub content_owner_id_min: u64,
    pub content_owner_id_max: u64,
    pub save_data_owner_min: u64,
    pub save_data_owner_max: u64,
    pub content_owner_ids: Seq<u64>,
    pub save_data_owner_ids: Seq<u64>,
}

/// One certificate filesystem-access-control record: inline counts, the
/// capability bitmap, id ranges and the inline id lists.
#[derive(Debug, PartialEq, Eq)]
pub struct AcidFsAccessControlRecord {
    pub version: u8,
    pub content_owner_id_count: u8,
    pub save_data_owner_id_count: u8,
    pub access_flags: FsAccessFlags,
    pub content_owner_id_min: u64,
    pub content_owner_id_max: u64,
    pub save_data_owner_min: u64,
    pub save_data_owner_max: u64,
    pub content_owner_ids: Vec<u64>,
    pub save_data_owner_ids: Vec<u64>,
}

/// The `count` little-endian 64-bit words starting at byte `pos`.
pub open spec fn spec_le64_array(b: Seq<u8>, pos: int, count: int) -> Seq<u64> {
    Seq::new(count as nat, |k: int| le64(b, pos + 8 * k))
}

/// Reads `count` little-endian 64-bit words starting at byte `pos`.
fn read_u64_array(b: &[u8], pos: usize, count: usize) -> (r: Vec<u64>)
    requires
        pos + 8 * count <= b@.len(),
    ensures
        r@ == spec_le64_array(b@, pos as int, count as int),
{
    let _m: usize = b.len();
    let mut out: Vec<u64> = Vec::new();
    let mut k: usize = 0;
    while k < count
        invariant
            k <= count,
            pos + 8 * count <= b@.len(),
            b@.len() <= usize::MAX,
            out@.len() == k,
            forall|j: int| 0 <= j < k ==> #[trigger] out@[j] == le64(b@, pos + 8 * j),
        decreases count - k,
    {
        out.push(read_u64_le(b, pos + 8 * k));
        k += 1;
    }
    proof {
        assert(out@ =~= spec_le64_array(b@, pos as int, count as int));
    }
    out
}

/// The certificate access-control records encoded from byte offset `i` to
/// the end of the buffer.  Each record is 0x2C fixed bytes plus its two
/// inline id lists; one that runs past the declared byte count is a hard
/// error.
pub open spec fn spec_acid_fac_from(b: Seq<u8>, i: int) -> Result<Seq<AcidFacModel>, ParseError>
    decreases b.len() - i,
{
    if i < 0 || i > b.len() {
        Err(ParseError::TruncatedInput)
    } else if i == b.len() {
        Ok(Seq::empty())
    } else if i + 0x2C > b.len() {
        Err(ParseError::TruncatedInput)
    } else {
        let cc = b[i + 1] as int;
        let sc = b[i + 2] as int;
        let rl = 0x2C + 8 * cc + 8 * sc;
        if i + rl > b.len() {
            Err(ParseError::TruncatedInput)
        } else {
            let m = AcidFacModel {
                version: b[i],
                content_owner_id_count: b[i + 1],
                save_data_owner_id_count: b[i + 2],
                flags: le64(b, i + 4),
                content_owner_id_min: le64(b, i + 0xC),
                content_owner_id_max: le64(b, i + 0x14),
                save_data_owner_min: le64(b, i + 0x1C),
                save_data_owner_max: le64(b, i + 0x24),
                content_owner_ids: spec_le64_array(b, i + 0x2C, cc),
                save_data_owner_ids: spec_le64_array(b, i + 0x2C + 8 * cc, sc),
            };
            match spec_acid_fac_from(b, i + rl) {
                Ok(rest) => Ok(seq![m] + rest),
                Err(e) => Err(e),
            }
        }
    }
}

/// The decoded record carries exactly the model's fields.
pub open spec fn acid_fac_matches(r: AcidFsAccessControlRecord, m: AcidFacModel) -> bool {
    &&& r.version == m.version
    &&& r.content_owner_id_count == m.content_owner_id_count
    &&& r.save_data_owner_id_count == m.save_data_owner_id_count
    &&& r.access_flags.0 == m.flags
    &&& r.content_owner_id_min == m.content_owner_id_min
    &&& r.content_owner_id_max == m.content_owner_id_max
    &&& r.save_data_owner_min == m.save_data_owner_min
    &&& r.save_data_owner_max == m.save_data_owner_max
    &&& r.content_owner_ids@ == m.content_owner_ids
    &&& r.save_data_owner_ids@ == m.save_data_owner_ids
}

/// Every decoded record matches its model, in order.
pub open spec fn acid_fac_all_match(v: Seq<AcidFsAccessControlRecord>, s: Seq<
    AcidFacModel,
>) -> bool {
    &&& v.len() == s.len()
    &&& forall|k: int| 0 <= k < v.len() ==> acid_fac_matches(#[trigger] v[k], s[k])
}

/// Decodes the certificate access-control records from byte offset `i`.
fn decode_acid_fac_from(b: &[u8], i: usize) -> (r: Result<
    Vec<AcidFsAccessControlRecord>,
    ParseError,
>)
    requires
        i <= b@.len(),
    ensures
        r matches Ok(v) ==> spec_acid_fac_from(b@, i as int) matches Ok(s) && acid_fac_all_match(
            v@,
            s,
        ),
        r matches Err(e) ==> spec_acid_fac_from(b@, i as int) == Err::<Seq<AcidFacModel>, _>(e),
    decreases b@.len() - i,
{
    let n = b.len();
    if i == n {
        return Ok(Vec::new());
    }
    if n - i < 0x2C {
        return Err(ParseError::TruncatedInput);
    }
    let cc = read_u8(b, i + 1) as usize;
    let sc = read_u8(b, i + 2) as usize;
    let ids_len: usize = 8 * cc + 8 * sc;
    if n - i - 0x2C < ids_len {
        return Err(ParseError::TruncatedInput);
    }
    let rec = AcidFsAccessControlRecord {
        version: read_u8(b, i),
        content_owner_id_count: read_u8(b, i + 1),
        save_data_owner_id_count: read_u8(b, i + 2),
        access_flags: FsAccessFlags(read_u64_le(b, i + 4)),
        content_owner_id_min: read_u64_le(b, i + 0xC),
        content_owner_id_max: read_u64_le(b, i + 0x14),
        save_data_owner_min: read_u64_le(b, i + 0x1C),
        save_data_owner_max: read_u64_le(b, i + 0x24),
        content_owner_ids: read_u64_array(b, i + 0x2C, cc),
        save_data_owner_ids: read_u64_array(b, i + 0x2C + 8 * cc, sc),
    };
    let mut rest = decode_acid_fac_from(b, i + 0x2C + ids_len)?;
    let ghost rest0 = rest@;
    rest.insert(0, rec);
    proof {
        let s = spec_acid_fac_from(b@, i as int).unwrap();
        assert forall|k: int| 0 <= k < rest@.len() implies acid_fac_matches(
            #[trigger] rest@[k],
            s[k],
        ) by {
            if k > 0 {
                assert(rest@[k] == rest0[k - 1]);
            }
        }
    }
    Ok(rest)
}

/// The embedded permission record (as built), as a mathematical value.
pub struct Aci0Model {
    pub title_id: u64,
    pub fah_offset: u32,
    pub fah_size: u32,
    pub services: Seq<(u8, Seq<u8>)>,
    pub caps: Seq<KernelCapability>,
}

/// The embedded permission record: title id, the location of its
/// filesystem-access-control record, and its service and
/// kernel-capability tables.
#[derive(Debug, PartialEq, Eq)]
pub struct Aci0 {
    pub title_id: u64,
    /// Offset of the filesystem-access-control record, relative to the
    /// record's own start.
    pub fah_offset: u32,
    /// Size in bytes of the filesystem-access-control record.
    pub fah_size: u32,
    pub services: Vec<ServiceRecord>,
    pub kernel_capabilities: Vec<KernelCapability>,
}

/// The decoding of a permission record whose own start is byte `base` of
/// the buffer: both variable tables are offset from that base, sliced to
/// exactly their declared sizes, and decoded to exhaustion.
pub open spec fn spec_aci0(b: Seq<u8>, base: int) -> Result<Aci0Model, ParseError> {
    if base < 0 || base + 0x40 > b.len() {
        Err(ParseError::TruncatedInput)
    } else if le32(b, base) != MAGIC_ACI0 {
        Err(ParseError::FormatMismatch)
    } else {
        let svc_off = le32(b, base + 0x28) as int;
        let svc_size = le32(b, base + 0x2C) as int;
        if base + svc_off + svc_size > b.len() {
            Err(ParseError::OutOfBounds)
        } else {
            match spec_services_from(b.subrange(base + svc_off, base + svc_off + svc_size), 0) {
                Err(e) => Err(e),
                Ok(svcs) => {
                    let kc_off = le32(b, base + 0x30) as int;
                    let kc_size = le32(b, base + 0x34) as int;
                    if base + kc_off + kc_size > b.len() {
                        Err(ParseError::OutOfBounds)
                    } else {
                        match spec_caps_from(
                            b.subrange(base + kc_off, base + kc_off + kc_size),
                            0,
                        ) {
                            Err(e) => Err(e),
                            Ok(caps) => Ok(
                                Aci0Model {
                                    title_id: le64(b, base + 0x10),
                                    fah_offset: le32(b, base + 0x20),
                                    fah_size: le32(b, base + 0x24),
                                    services: svcs,
                                    caps,
                                },
                            ),
                        }
                    }
                },
            }
        }
    }
}

/// The decoded record carries exactly the model's fields.
pub open spec fn aci0_matches(a: Aci0, m: Aci0Model) -> bool {
    &&& a.title_id == m.title_id
    &&& a.fah_offset == m.fah_offset
    &&& a.fah_size == m.fah_size
    &&& services_match(a.services@, m.services)
    &&& a.kernel_capabilities@ == m.caps
}

impl Aci0 {
    /// Decodes the permission record whose own start is byte `base`.
    pub fn decode(b: &[u8], base: usize) -> (r: Result<Aci0, ParseError>)
        ensures
            r matches Ok(a) ==> spec_aci0(b@, base as int) matches Ok(m) && aci0_matches(a, m),
            r matches Err(e) ==> spec_aci0(b@, base as int) == Err::<Aci0Model, _>(e),
    {
        let n = b.len();
        if base > n || n - base < 0x40 {
            return Err(ParseError::TruncatedInput);
        }
        if read_u32_le(b, base) != MAGIC_ACI0 {
            return Err(ParseError::FormatMismatch);
        }
        let svc_off = read_u32_le(b, base + 0x28);
        let svc_size = read_u32_le(b, base + 0x2C);
        if (svc_off as u64) + (svc_size as u64) > (n - base) as u64 {
            return Err(ParseError::OutOfBounds);
        }
        let svc_start = base + svc_off as usize;
        let svc_slice = vstd::slice::slice_subrange(b, svc_start, svc_start + svc_size as usize);
        let services = decode_services_from(svc_slice, 0)?;
        let kc_off = read_u32_le(b, base + 0x30);
        let kc_size = read_u32_le(b, base + 0x34);
        if (kc_off as u64) + (kc_size as u64) > (n - base) as u64 {
            return Err(ParseError::OutOfBounds);
        }
        let kc_start = base + kc_off as usize;
        let kc_slice = vstd::slice::slice_subrange(b, kc_start, kc_start + kc_size as usize);
        let kernel_capabilities = decode_kernel_capabilities(kc_slice)?;
        Ok(
            Aci0 {
                title_id: read_u64_le(b, base + 0x10),
                fah_offset: read_u32_le(b, base + 0x20),
                fah_size: read_u32_le(b, base + 0x24),
                services,
                kernel_capabilities,
            },
        )
    }
}

/// The embedded signed permission certificate, as a mathematical value.
pub struct AcidModel {
    pub signature: Seq<u8>,
    pub modulus: Seq<u8>,
    pub size: u32,
    pub version: u8,
    pub v14_plus: u8,
    pub flags: u32,
    pub title_id_range_min: u64,
    pub title_id_range_max: u64,
    pub fac: Seq<AcidFacModel>,
    pub services: Seq<(u8, Seq<u8>)>,
    pub caps: Seq<KernelCapability>,
}

/// The embedded signed permission certificate (as declared).
#[derive(Debug, PartialEq, Eq)]
pub struct Acid {
    /// The certificate's signature over everything after the signature
    /// field itself.
    pub signature: Vec<u8>,
    /// The public modulus stored alongside (itself part of the signed
    /// payload).
    pub modulus: Vec<u8>,
    pub size: u32,
    pub version: u8,
    pub v14_plus: u8,
    pub flags: AcidFlags,
    pub title_id_range_min: u64,
    pub title_id_range_max: u64,
    pub file_access_control_entries: Vec<AcidFsAccessControlRecord>,
    pub services: Vec<ServiceRecord>,
    pub kernel_capabilities: Vec<KernelCapability>,
}

/// The decoding of a certificate blob.  All three variable tables are
/// offset from the certificate's own start (byte 0 of the blob).
pub open spec fn spec_acid(b: Seq<u8>) -> Result<AcidModel, ParseError> {
    if b.len() < 0x240 {
        Err(ParseError::TruncatedInput)
    } else if le32(b, 0x200) != MAGIC_ACID {
        Err(ParseError::FormatMismatch)
    } else {
        let fac_off = le32(b, 0x220) as int;
        let fac_size = le32(b, 0x224) as int;
        if fac_off + fac_size > b.len() {
            Err(ParseError::OutOfBounds)
        } else {
            match spec_acid_fac_from(b.subrange(fac_off, fac_off + fac_size), 0) {
                Err(e) => Err(e),
                Ok(fac) => {
                    let svc_off = le32(b, 0x228) as int;
                    let svc_size = le32(b, 0x22C) as int;
                    if svc_off + svc_size > b.len() {
                        Err(ParseError::OutOfBounds)
                    } else {
                        match spec_services_from(b.subrange(svc_off, svc_off + svc_size), 0) {
                            Err(e) => Err(e),
                            Ok(svcs) => {
                                let kc_off = le32(b, 0x230) as int;
                                let kc_size = le32(b, 0x234) as int;
                                if kc_off + kc_size > b.len() {
                                    Err(ParseError::OutOfBounds)
                                } else {
                                    match spec_caps_from(
                                        b.subrange(kc_off, kc_off + kc_size),
                                        0,
                                    ) {
                                        Err(e) => Err(e),
                                        Ok(caps) => Ok(
                                            AcidModel {
                                                signature: b.subrange(0, 0x100),
                                                modulus: b.subrange(0x100, 0x200),
                                                size: le32(b, 0x204),
                                                version: b[0x208],
                                                v14_plus: b[0x209],
                                                flags: le32(b, 0x20C),
                                                title_id_range_min: le64(b, 0x210),
                                                title_id_range_max: le64(b, 0x218),
                                                fac,
                                                services: svcs,
                                                caps,
                                            },
                                        ),
                                    }
                                }
                            },
                        }
                    }
                },
            }
        }
    }
}

/// The decoded certificate carries exactly the model's fields.
pub open spec fn acid_matches(a: Acid, m: AcidModel) -> bool {
    &&& a.signature@ == m.signature
    &&& a.modulus@ == m.modulus
    &&& a.size == m.size
    &&& a.version == m.version
    &&& a.v14_plus == m.v14_plus
    &&& a.flags.0 == m.flags
    &&& a.title_id_range_min == m.title_id_range_min
    &&& a.title_id_range_max == m.title_id_range_max
    &&& acid_fac_all_match(a.file_access_control_entries@, m.fac)
    &&& services_match(a.services@, m.services)
    &&& a.kernel_capabilities@ == m.caps
}

impl Acid {
    /// Decodes a certificate from its own byte blob.
    pub fn decode(b: &[u8]) -> (r: Result<Acid, ParseError>)
        ensures
            r matches Ok(a) ==> spec_acid(b@) matches Ok(m) && acid_matches(a, m),
            r matches Err(e) ==> spec_acid(b@) == Err::<AcidModel, _>(e),
    {
        let n = b.len();
        if n < 0x240 {
            return Err(ParseError::TruncatedInput);
        }
        if read_u32_le(b, 0x200) != MAGIC_ACID {
            return Err(ParseError::FormatMismatch);
        }
        let fac_off = read_u32_le(b, 0x220);
        let fac_size = read_u32_le(b, 0x224);
        if (fac_off as u64) + (fac_size as u64) > n as u64 {
            return Err(ParseError::OutOfBounds);
        }
        let fac_slice = vstd::slice::slice_subrange(
            b,
            fac_off as usize,
            fac_off as usize + fac_size as usize,
        );
        let file_access_control_entries = decode_acid_fac_from(fac_slice, 0)?;
        let svc_off = read_u32_le(b, 0x228);
        let svc_size = read_u32_le(b, 0x22C);
        if (svc_off as u64) + (svc_size as u64) > n as u64 {
            return Err(ParseError::OutOfBounds);
        }
        let svc_slice = vstd::slice::slice_subrange(
            b,
            svc_off as usize,
            svc_off as usize + svc_size as usize,
        );
        let services = decode_services_from(svc_slice, 0)?;
        let kc_off = read_u32_le(b, 0x230);
        let kc_size = read_u32_le(b, 0x234);
        if (kc_off as u64) + (kc_size as u64) > n as u64 {
            return Err(ParseError::OutOfBounds);
        }
        let kc_slice = vstd::slice::slice_subrange(
            b,
            kc_off as usize,
            kc_off as usize + kc_size as usize,
        );
        let kernel_capabilities = decode_kernel_capabilities(kc_slice)?;
        Ok(
            Acid {
                signature: bytes_range(b, 0, 0x100),
                modulus: bytes_range(b, 0x100, 0x100),
                size: read_u32_le(b, 0x204),
                version: read_u8(b, 0x208),
                v14_plus: read_u8(b, 0x209),
                flags: AcidFlags(read_u32_le(b, 0x20C)),
                title_id_range_min: read_u64_le(b, 0x210),
                title_id_range_max: read_u64_le(b, 0x218),
                file_access_control_entries,
                services,
                kernel_capabilities,
            },
        )
    }
}

/// The whole program-metadata file, as a mathematical value.
pub struct NpdmModel {
    pub acid_sign_key_index: u32,
    pub flags: u8,
    pub main_thread_priority: u8,
    pub default_cpu_core: u8,
    pub system_resource_size: u32,
    pub version: u32,
    pub main_stack_size: u32,
    pub title_name: Seq<u8>,
    pub product_code: Seq<u8>,
    pub aci0: Aci0Model,
    pub aci0_size: u32,
    pub acid_raw: Seq<u8>,
    pub acid: AcidModel,
}

/// A decoded program-metadata file.
#[derive(Debug, PartialEq, Eq)]
pub struct NpdmFile {
    pub acid_sign_key_index: u32,
    pub flags: NpdmHeaderFlags,
    pub main_thread_priority: u8,
    pub default_cpu_core: u8,
    pub system_resource_size: u32,
    pub version: u32,
    pub main_stack_size: u32,
    pub title_name: Vec<u8>,
    pub product_code: Vec<u8>,
    pub aci0: Aci0,
    pub aci0_size: u32,
    /// The certificate's raw bytes, kept because they are the signed
    /// payload.
    pub acid_raw: Vec<u8>,
    pub acid: Acid,
}

/// The decoding of a program-metadata file: header scalars, the
/// permission record at its absolute pointer, and the certificate blob at
/// its absolute pointer and size, decoded against its own base.
pub open spec fn spec_npdm(b: Seq<u8>) -> Result<NpdmModel, ParseError> {
    if b.len() < 0x80 {
        Err(ParseError::TruncatedInput)
    } else if le32(b, 0) != MAGIC_META {
        Err(ParseError::FormatMismatch)
    } else {
        match spec_aci0(b, le32(b, 0x70) as int) {
            Err(e) => Err(e),
            Ok(aci0) => {
                let acid_ptr = le32(b, 0x78) as int;
                let acid_size = le32(b, 0x7C) as int;
                if acid_ptr + acid_size > b.len() {
                    Err(ParseError::OutOfBounds)
                } else {
                    let raw = b.subrange(acid_ptr, acid_ptr + acid_size);
                    match spec_acid(raw) {
                        Err(e) => Err(e),
                        Ok(acid) => Ok(
                            NpdmModel {
                                acid_sign_key_index: le32(b, 4),
                                flags: b[0xC],
                                main_thread_priority: b[0xE],
                                default_cpu_core: b[0xF],
                                system_resource_size: le32(b, 0x14),
                                version: le32(b, 0x18),
                                main_stack_size: le32(b, 0x1C),
                                title_name: b.subrange(0x20, 0x30),
                                product_code: b.subrange(0x30, 0x40),
                                aci0,
                                aci0_size: le32(b, 0x74),
                                acid_raw: raw,
                                acid,
                            },
                        ),
                    }
                }
            },
        }
    }
}

/// The decoded file carries exactly the model's fields.
pub open spec fn npdm_matches(f: NpdmFile, m: NpdmModel) -> bool {
    &&& f.acid_sign_key_index == m.acid_sign_key_index
    &&& f.flags.0 == m.flags
    &&& f.main_thread_priority == m.main_thread_priority
    &&& f.default_cpu_core == m.default_cpu_core
    &&& f.system_resource_size == m.system_resource_size
    &&& f.version == m.version
    &&& f.main_stack_size == m.main_stack_size
    &&& f.title_name@ == m.title_name
    &&& f.product_code@ == m.product_code
    &&& aci0_matches(f.aci0, m.aci0)
    &&& f.aci0_size == m.aci0_size
    &&& f.acid_raw@ == m.acid_raw
    &&& acid_matches(f.acid, m.acid)
}

impl NpdmFile {
    /// The certificate blob is long enough to hold the signature and the
    /// signed payload, and the signature field is complete.
    pub open spec fn wf(self) -> bool {
        &&& self.acid_raw@.len() >= 0x240
        &&& self.acid.signature@.len() == 0x100
    }

    /// Decodes a program-metadata file from its bytes.
    pub fn decode(b: &[u8]) -> (r: Result<NpdmFile, ParseError>)
        ensures
            r matches Ok(f) ==> spec_npdm(b@) matches Ok(m) && npdm_matches(f, m) && f.wf(),
            r matches Err(e) ==> spec_npdm(b@) == Err::<NpdmModel, _>(e),
    {
        let n = b.len();
        if n < 0x80 {
            return Err(ParseError::TruncatedInput);
        }
        if read_u32_le(b, 0) != MAGIC_META {
            return Err(ParseError::FormatMismatch);
        }
        let aci0_ptr = read_u32_le(b, 0x70);
        let aci0 = Aci0::decode(b, aci0_ptr as usize)?;
        let acid_ptr = read_u32_le(b, 0x78);
        let acid_size = read_u32_le(b, 0x7C);
        if (acid_ptr as u64) + (acid_size as u64) > n as u64 {
            return Err(ParseError::OutOfBounds);
        }
        let acid_raw = bytes_range(b, acid_ptr as usize, acid_size as usize);
        let acid = Acid::decode(acid_raw.as_slice())?;
        Ok(
            NpdmFile {
                acid_sign_key_index: read_u32_le(b, 4),
                flags: NpdmHeaderFlags(read_u8(b, 0xC)),
                main_thread_priority: read_u8(b, 0xE),
                default_cpu_core: read_u8(b, 0xF),
                system_resource_size: read_u32_le(b, 0x14),
                version: read_u32_le(b, 0x18),
                main_stack_size: read_u32_le(b, 0x1C),
                title_name: bytes_range(b, 0x20, 0x10),
                product_code: bytes_range(b, 0x30, 0x10),
                aci0,
                aci0_size: read_u32_le(b, 0x74),
                acid_raw,
                acid,
            },
        )
    }
}

/// Whether the rsa crate accepts a big-endian modulus, with the fixed
/// public exponent 65537, as a usable public key.  Acceptance depends on
/// the modulus bytes alone.
pub uninterp spec fn rsa_modulus_accepted(modulus_be: Seq<u8>) -> bool;

/// Whether the probabilistic-scheme signature verifies over the message
/// under the key built from the big-endian modulus with exponent 65537
/// and a SHA-256 digest.  The outcome depends on the three byte strings
/// alone.
pub uninterp spec fn pss_accepts(modulus_be: Seq<u8>, data: Seq<u8>, signature: Seq<u8>) -> bool;

/// Relies on rsa::RsaPublicKey::new (modulus validation, never panics,
/// deterministic in the modulus since the exponent is fixed) and on
/// rsa::pss::VerifyingKey's Verifier impl with sha2::Sha256
/// (deterministic verification; pss::Signature::try_from never fails).
#[verifier::external_body]
fn pss_verify_sha256(modulus_be: &[u8], data: &[u8], signature: &[u8]) -> (r: Result<bool, ()>)
    ensures
        r is Ok <==> rsa_modulus_accepted(modulus_be@),
        r matches Ok(accepted) ==> accepted == pss_accepts(modulus_be@, data@, signature@),
{
    let n = rsa::BigUint::from_bytes_be(modulus_be);
    let e = rsa::BigUint::from_bytes_be(&[1, 0, 1]);
    let key = rsa::RsaPublicKey::new(n, e).map_err(|_| ())?;
    let vk: rsa::pss::VerifyingKey<sha2::Sha256> = rsa::pss::VerifyingKey::new(key);
    let sig = match rsa::pss::Signature::try_from(signature) {
        Ok(s) => s,
        Err(_) => return Ok(false),
    };
    Ok(signature::Verifier::verify(&vk, data, &sig).is_ok())
}

impl NpdmFile {
    /// Verifies the embedded certificate's signature against the fixed
    /// modulus selected by key-set type and the certificate's own
    /// signing-key index.
    ///
    /// An out-of-range signing-key index is a certificate content fault
    /// (`Invalid`), reported before any modulus lookup; an unusable
    /// modulus is a tooling fault (`CheckError`); otherwise the
    /// cryptographic outcome over the payload after the signature field
    /// decides `Valid` against `Invalid`.
    pub fn verify_acid(&self, key_type: KeysetType, moduli: &AcidModuli) -> (r: Result<
        Validity,
        Validity,
    >)
        requires
            self.wf(),
            moduli.wf(),
        ensures
            self.acid_sign_key_index > 1 ==> r == Err::<Validity, Validity>(Validity::Invalid),
            self.acid_sign_key_index <= 1 ==> {
                let m = spec_acid_modulus(*moduli, key_type, self.acid_sign_key_index as int);
                let data = self.acid_raw@.skip(0x100);
                let sig = self.acid.signature@;
                &&& !rsa_modulus_accepted(m) ==> r == Err::<Validity, Validity>(
                    Validity::CheckError,
                )
                &&& rsa_modulus_accepted(m) ==> r == Ok::<Validity, Validity>(
                    if pss_accepts(m, data, sig) {
                        Validity::Valid
                    } else {
                        Validity::Invalid
                    },
                )
            },
    {
        if self.acid_sign_key_index > 1 {
            return Err(Validity::Invalid);
        }
        let idx = self.acid_sign_key_index as usize;
        let modulus: &Vec<u8> = match key_type {
            KeysetType::Retail => &moduli.retail[idx],
            KeysetType::Dev => &moduli.dev[idx],
        };
        let n = self.acid_raw.len();
        let data = vstd::slice::slice_subrange(self.acid_raw.as_slice(), 0x100, n);
        proof {
            assert(data@ =~= self.acid_raw@.skip(0x100));
        }
        match pss_verify_sha256(modulus.as_slice(), data, self.acid.signature.as_slice()) {
            Ok(true) => Ok(Validity::Valid),
            Ok(false) => Ok(Validity::Invalid),
            Err(_) => Err(Validity::CheckError),
        }
    }

    /// Verifies the embedded certificate against a modulus given as a
    /// big-endian hex string, over the same signed payload as
    /// [`NpdmFile::verify_acid`]: everything after the signature field,
    /// the stored modulus included.  An undecodable hex string is a
    /// tooling fault.
    pub fn verify_with_hex_str(&self, verification_key_modulus: &str) -> (r: Result<
        Validity,
        Validity,
    >)
        requires
            self.wf(),
        ensures
            match crate::hexstr::spec_hex_decode(verification_key_modulus@) {
                None => r == Err::<Validity, Validity>(Validity::CheckError),
                Some(m) => {
                    let data = self.acid_raw@.skip(0x100);
                    let sig = self.acid.signature@;
                    &&& !rsa_modulus_accepted(m) ==> r == Err::<Validity, Validity>(
                        Validity::CheckError,
                    )
                    &&& rsa_modulus_accepted(m) ==> r == Ok::<Validity, Validity>(
                        if pss_accepts(m, data, sig) {
                            Validity::Valid
                        } else {
                            Validity::Invalid
                        },
                    )
                },
            },
    {
        let modulus = match crate::hexstr::hex_decode(verification_key_modulus) {
            Some(v) => v,
            None => {
                return Err(Validity::CheckError);
            },
        };
        let n = self.acid_raw.len();
        let data = vstd::slice::slice_subrange(self.acid_raw.as_slice(), 0x100, n);
        proof {
            assert(data@ =~= self.acid_raw@.skip(0x100));
        }
        match pss_verify_sha256(modulus.as_slice(), data, self.acid.signature.as_slice()) {
            Ok(true) => Ok(Validity::Valid),
            Ok(false) => Ok(Validity::Invalid),
            Err(_) => Err(Validity::CheckError),
        }
    }
}


/// The memory region a certificate assigns the program to.
#[derive(Debug, Clone, Copy, PartialEq, Eq, Structural)]
pub enum MemoryRegion {
    Application,
    Applet,
    SecureSystem,
    NonSecureSystem,
    Reserved,
}

/// The process address-space layouts the header flag byte can select.
#[derive(Debug, Clone, Copy, PartialEq, Eq, Structural)]
pub enum ProcessAddressSpace {
    Address32Bit,
    Address64BitOld,
    Address64BitNoReserved,
    Address64BitNew,
    Reserved,
}

pub open spec fn spec_memory_region(v: u8) -> MemoryRegion {
    if v == 0 {
        MemoryRegion::Application
    } else if v == 1 {
        MemoryRegion::Applet
    } else if v == 2 {
        MemoryRegion::SecureSystem
    } else if v == 3 {
        MemoryRegion::NonSecureSystem
    } else {
        MemoryRegion::Reserved
    }
}

fn memoryregion_from(v: u8) -> (r: MemoryRegion)
    ensures
        r == spec_memory_region(v),
{
    if v == 0 {
        MemoryRegion::Application
    } else if v == 1 {
        MemoryRegion::Applet
    } else if v == 2 {
        MemoryRegion::SecureSystem
    } else if v == 3 {
        MemoryRegion::NonSecureSystem
    } else {
        MemoryRegion::Reserved
    }
}

pub open spec fn spec_process_address_space(v: u8) -> ProcessAddressSpace {
    if v == 0 {
        ProcessAddressSpace::Address32Bit
    } else if v == 1 {
        ProcessAddressSpace::Address64BitOld
    } else if v == 2 {
        ProcessAddressSpace::Address64BitNoReserved
    } else if v == 3 {
        ProcessAddressSpace::Address64BitNew
    } else {
        ProcessAddressSpace::Reserved
    }
}

fn processaddressspace_from(v: u8) -> (r: ProcessAddressSpace)
    ensures
        r == spec_process_address_space(v),
{
    if v == 0 {
        ProcessAddressSpace::Address32Bit
    } else if v == 1 {
        ProcessAddressSpace::Address64BitOld
    } else if v == 2 {
        ProcessAddressSpace::Address64BitNoReserved
    } else if v == 3 {
        ProcessAddressSpace::Address64BitNew
    } else {
        ProcessAddressSpace::Reserved
    }
}

impl FsAccessFlags {
    /// The whole raw word.
    pub fn raw(&self) -> (r: u64)
        ensures
            r == self.0,
    {
        self.0
    }

    /// Bit 0 of the raw word.
    pub fn application_info(&self) -> (r: bool)
        ensures
            r == ((self.0 & 1) == 1),
    {
        (self.0 & 1) == 1
    }
    /// Bit 1 of the raw word.
    pub fn boot_mode_control(&self) -> (r: bool)
        ensures
            r == (((self.0 >> 1) & 1) == 1),
    {
        ((self.0 >> 1) & 1) == 1
    }
    /// Bit 2 of the raw word.
    pub fn calibration(&self) -> (r: bool)
        ensures
            r == (((self.0 >> 2) & 1) == 1),
    {
        ((self.0 >> 2) & 1) == 1
    }
    /// Bit 3 of the raw word.
    pub fn system_save_data(&self) -> (r: bool)
        ensures
            r == (((self.0 >> 3) & 1) == 1),
    {
        ((self.0 >> 3) & 1) == 1
    }
    /// Bit 4 of the raw word.
    pub fn game_card(&self) -> (r: bool)
        ensures
            r == (((self.0 >> 4) & 1) == 1),
    {
        ((self.0 >> 4) & 1) == 1
    }
    /// Bit 5 of the raw word.
    pub fn save_data_back_up(&self) -> (r: bool)
        ensures
            r == (((self.0 >> 5) & 1) == 1),
    {
        ((self.0 >> 5) & 1) == 1
    }
    /// Bit 6 of the raw word.
    pub fn save_data_management(&self) -> (r: bool)
        ensures
            r == (((self.0 >> 6) & 1) == 1),
    {
        ((self.0 >> 6) & 1) == 1
    }
    /// Bit 7 of the raw word.
    pub fn bis_all_raw(&self) -> (r: bool)
        ensures
            r == (((self.0 >> 7) & 1) == 1),
    {
        ((self.0 >> 7) & 1) == 1
    }
    /// Bit 8 of the raw word.
    pub fn game_card_raw(&self) -> (r: bool)
        ensures
            r == (((self.0 >> 8) & 1) == 1),
    {
        ((self.0 >> 8) & 1) == 1
    }
    /// Bit 9 of the raw word.
    pub fn game_card_private(&self) -> (r: bool)
        ensures
            r == (((self.0 >> 9) & 1) == 1),
    {
        ((self.0 >> 9) & 1) == 1
    }
    /// Bit 10 of the raw word.
    pub fn set_time(&self) -> (r: bool)
        ensures
            r == (((self.0 >> 10) & 1) == 1),
    {
        ((self.0 >> 10) & 1) == 1
    }
    /// Bit 11 of the raw word.
    pub fn content_manager(&self) -> (r: bool)
        ensures
            r == (((self.0 >> 11) & 1) == 1),
    {
        ((self.0 >> 11) & 1) == 1
    }
    /// Bit 12 of the raw word.
    pub fn image_manager(&self) -> (r: bool)
        ensures
            r == (((self.0 >> 12) & 1) == 1),
    {
        ((self.0 >> 12) & 1) == 1
    }
    /// Bit 13 of the raw word.
    pub fn create_save_data(&self) -> (r: bool)
        ensures
            r == (((self.0 >> 13) & 1) == 1),
    {
        ((self.0 >> 13) & 1) == 1
    }
    /// Bit 14 of the raw word.
    pub fn system_save_data_management(&self) -> (r: bool)
        ensures
            r == (((self.0 >> 14) & 1) == 1),
    {
        ((self.0 >> 14) & 1) == 1
    }
    /// Bit 15 of the raw word.
    pub fn bis_file_system(&self) -> (r: bool)
        ensures
            r == (((self.0 >> 15) & 1) == 1),
    {
        ((self.0 >> 15) & 1) == 1
    }
    /// Bit 16 of the raw word.
    pub fn system_update(&self) -> (r: bool)
        ensures
            r == (((self.0 >> 16) & 1) == 1),
    {
        ((self.0 >> 16) & 1) == 1
    }
    /// Bit 17 of the raw word.
    pub fn save_data_meta(&self) -> (r: bool)
        ensures
            r == (((self.0 >> 17) & 1) == 1),
    {
        ((self.0 >> 17) & 1) == 1
    }
    /// Bit 18 of the raw word.
    pub fn device_save_data(&self) -> (r: bool)
        ensures
            r == (((self.0 >> 18) & 1) == 1),
    {
        ((self.0 >> 18) & 1) == 1
    }
    /// Bit 19 of the raw word.
    pub fn settings_control(&self) -> (r: bool)
        ensures
            r == (((self.0 >> 19) & 1) == 1),
    {
        ((self.0 >> 19) & 1) == 1
    }
    /// Bit 20 of the raw word.
    pub fn system_data(&self) -> (r: bool)
        ensures
            r == (((self.0 >> 20) & 1) == 1),
    {
        ((self.0 >> 20) & 1) == 1
    }
    /// Bit 21 of the raw word.
    pub fn sd_card(&self) -> (r: bool)
        ensures
            r == (((self.0 >> 21) & 1) == 1),
    {
        ((self.0 >> 21) & 1) == 1
    }
    /// Bit 22 of the raw word.
    pub fn host(&self) -> (r: bool)
        ensures
            r == (((self.0 >> 22) & 1) == 1),
    {
        ((self.0 >> 22) & 1) == 1
    }
    /// Bit 23 of the raw word.
    pub fn fill_bis(&self) -> (r: bool)
        ensures
            r == (((self.0 >> 23) & 1) == 1),
    {
        ((self.0 >> 23) & 1) == 1
    }
    /// Bit 24 of the raw word.
    pub fn corrupt_save_data(&self) -> (r: bool)
        ensures
            r == (((self.0 >> 24) & 1) == 1),
    {
        ((self.0 >> 24) & 1) == 1
    }
    /// Bit 25 of the raw word.
    pub fn save_data_for_debug(&self) -> (r: bool)
        ensures
            r == (((self.0 >> 25) & 1) == 1),
    {
        ((self.0 >> 25) & 1) == 1
    }
    /// Bit 26 of the raw word.
    pub fn format_sd_card(&self) -> (r: bool)
        ensures
            r == (((self.0 >> 26) & 1) == 1),
    {
        ((self.0 >> 26) & 1) == 1
    }
    /// Bit 27 of the raw word.
    pub fn get_rights_id(&self) -> (r: bool)
        ensures
            r == (((self.0 >> 27) & 1) == 1),
    {
        ((self.0 >> 27) & 1) == 1
    }
    /// Bit 28 of the raw word.
    pub fn register_external_key(&self) -> (r: bool)
        ensures
            r == (((self.0 >> 28) & 1) == 1),
    {
        ((self.0 >> 28) & 1) == 1
    }
    /// Bit 29 of the raw word.
    pub fn register_update_partition(&self) -> (r: bool)
        ensures
            r == (((self.0 >> 29) & 1) == 1),
    {
        ((self.0 >> 29) & 1) == 1
    }
    /// Bit 30 of the raw word.
    pub fn save_data_transfer(&self) -> (r: bool)
        ensures
            r == (((self.0 >> 30) & 1) == 1),
    {
        ((self.0 >> 30) & 1) == 1
    }
    /// Bit 31 of the raw word.
    pub fn device_detection(&self) -> (r: bool)
        ensures
            r == (((self.0 >> 31) & 1) == 1),
    {
        ((self.0 >> 31) & 1) == 1
    }
    /// Bit 32 of the raw word.
    pub fn access_failure_resolution(&self) -> (r: bool)
        ensures
            r == (((self.0 >> 32) & 1) == 1),
    {
        ((self.0 >> 32) & 1) == 1
    }
    /// Bit 33 of the raw word.
    pub fn save_data_transfer_version2(&self) -> (r: bool)
        ensures
            r == (((self.0 >> 33) & 1) == 1),
    {
        ((self.0 >> 33) & 1) == 1
    }
    /// Bit 34 of the raw word.
    pub fn register_program_index_map_info(&self) -> (r: bool)
        ensures
            r == (((self.0 >> 34) & 1) == 1),
    {
        ((self.0 >> 34) & 1) == 1
    }
    /// Bit 35 of the raw word.
    pub fn create_own_save_data(&self) -> (r: bool)
        ensures
            r == (((self.0 >> 35) & 1) == 1),
    {
        ((self.0 >> 35) & 1) == 1
    }
    /// Bit 36 of the raw word.
    pub fn move_cache_storage(&self) -> (r: bool)
        ensures
            r == (((self.0 >> 36) & 1) == 1),
    {
        ((self.0 >> 36) & 1) == 1
    }
    /// Bit 62 of the raw word.
    pub fn debug(&self) -> (r: bool)
        ensures
            r == (((self.0 >> 62) & 1) == 1),
    {
        ((self.0 >> 62) & 1) == 1
    }
    /// Bit 63 of the raw word.
    pub fn full_permission(&self) -> (r: bool)
        ensures
            r == (((self.0 >> 63) & 1) == 1),
    {
        ((self.0 >> 63) & 1) == 1
    }
}

impl AcidFlags {
    /// The whole raw word.
    pub fn raw(&self) -> (r: u32)
        ensures
            r == self.0,
    {
        self.0
    }

    /// Bit 0 of the raw word.
    pub fn is_production(&self) -> (r: bool)
        ensures
            r == ((self.0 & 1) == 1),
    {
        (self.0 & 1) == 1
    }

    /// Bit 1 of the raw word.
    pub fn unqualified_approval(&self) -> (r: bool)
        ensures
            r == (((self.0 >> 1) & 1) == 1),
    {
        ((self.0 >> 1) & 1) == 1
    }

    /// Bits 1..=3 of the raw word.
    pub fn memory_region_raw(&self) -> (r: u8)
        ensures
            r == ((self.0 >> 1) & 0x7) as u8,
    {
        ((self.0 >> 1) & 0x7) as u8
    }

    /// Bits 2..=5 of the raw word, decoded.
    pub fn memory_region(&self) -> (r: MemoryRegion)
        ensures
            r == spec_memory_region(((self.0 >> 2) & 0xF) as u8),
    {
        memoryregion_from(((self.0 >> 2) & 0xF) as u8)
    }
}

impl NpdmHeaderFlags {
    /// The whole raw word.
    pub fn raw(&self) -> (r: u8)
        ensures
            r == self.0,
    {
        self.0
    }

    /// Bit 0 of the raw word.
    pub fn is_64bit(&self) -> (r: bool)
        ensures
            r == ((self.0 & 1) == 1),
    {
        (self.0 & 1) == 1
    }

    /// Bits 1..=3 of the raw word.
    pub fn address_space_raw(&self) -> (r: u8)
        ensures
            r == ((self.0 >> 1) & 0x7) as u8,
    {
        ((self.0 >> 1) & 0x7) as u8
    }

    /// Bits 1..=3 of the raw word, decoded.
    pub fn address_space(&self) -> (r: ProcessAddressSpace)
        ensures
            r == spec_process_address_space(((self.0 >> 1) & 0x7) as u8),
    {
        processaddressspace_from(((self.0 >> 1) & 0x7) as u8)
    }

    /// Bit 4 of the raw word.
    pub fn optimize_memory_allocation(&self) -> (r: bool)
        ensures
            r == (((self.0 >> 4) & 1) == 1),
    {
        ((self.0 >> 4) & 1) == 1
    }

    /// Bit 5 of the raw word.
    pub fn disable_device_address_space_merge(&self) -> (r: bool)
        ensures
            r == (((self.0 >> 5) & 1) == 1),
    {
        ((self.0 >> 5) & 1) == 1
    }
}

impl ServiceRecordHeader {
    /// The whole raw word.
    pub fn raw(&self) -> (r: u8)
        ensures
            r == self.0,
    {
        self.0
    }

    /// Bits 0..=2 of the raw word.
    pub fn len(&self) -> (r: u8)
        ensures
            r == (self.0 & 0x7) as u8,
    {
        (self.0 & 0x7) as u8
    }

    /// Bit 7 of the raw word.
    pub fn is_server(&self) -> (r: bool)
        ensures
            r == (((self.0 >> 7) & 1) == 1),
    {
        ((self.0 >> 7) & 1) == 1
    }
}

/// The as-built filesystem-access-control record, as a mathematical
/// value.
pub struct Aci0FacModel {
    pub version: u8,
    pub flags: u64,
    pub content_owner_ids: Seq<u64>,
    pub save_data_owner_ids: Seq<u64>,
    pub save_data_owner_id_count: Option<u32>,
}

/// The as-built filesystem-access-control record: the capability bitmap
/// plus two owner-id tables pointed to by offsets relative to the
/// record's own start.
#[derive(Debug, PartialEq, Eq)]
pub struct Aci0FsAccessControlRecord {
    pub version: u8,
    pub access_flags: FsAccessFlags,
    pub content_owner_ids: Vec<u64>,
    pub save_data_owner_ids: Vec<u64>,
    /// A trailing count kept by the historical long form of the record,
    /// present exactly when the content-owner table does not start
    /// directly behind the fixed header.
    pub save_data_owner_id_count: Option<u32>,
}

/// The decoding of an as-built access-control record whose own start is
/// byte `base`: both owner-id tables are offset from that base and read
/// in whole 64-bit words.
pub open spec fn spec_aci0_fac(b: Seq<u8>, base: int) -> Result<Aci0FacModel, ParseError> {
    if base < 0 || base + 0x1C > b.len() {
        Err(ParseError::TruncatedInput)
    } else {
        let co_off = le32(b, base + 0xC) as int;
        let co_size = le32(b, base + 0x10) as int;
        let sd_off = le32(b, base + 0x14) as int;
        let sd_size = le32(b, base + 0x18) as int;
        if co_off != 0x1C && base + 0x20 > b.len() {
            Err(ParseError::TruncatedInput)
        } else if base + co_off + 8 * (co_size / 8) > b.len() {
            Err(ParseError::OutOfBounds)
        } else if base + sd_off + 8 * (sd_size / 8) > b.len() {
            Err(ParseError::OutOfBounds)
        } else {
            Ok(
                Aci0FacModel {
                    version: b[base],
                    flags: le64(b, base + 4),
                    content_owner_ids: spec_le64_array(b, base + co_off, co_size / 8),
                    save_data_owner_ids: spec_le64_array(b, base + sd_off, sd_size / 8),
                    save_data_owner_id_count: if co_off != 0x1C {
                        Some(le32(b, base + 0x1C))
                    } else {
                        None
                    },
                },
            )
        }
    }
}

/// The decoded record carries exactly the model's fields.
pub open spec fn aci0_fac_matches(r: Aci0FsAccessControlRecord, m: Aci0FacModel) -> bool {
    &&& r.version == m.version
    &&& r.access_flags.0 == m.flags
    &&& r.content_owner_ids@ == m.content_owner_ids
    &&& r.save_data_owner_ids@ == m.save_data_owner_ids
    &&& r.save_data_owner_id_count == m.save_data_owner_id_count
}

impl Aci0FsAccessControlRecord {
    /// Decodes the record whose own start is byte `base`.
    pub fn decode(b: &[u8], base: usize) -> (r: Result<Aci0FsAccessControlRecord, ParseError>)
        ensures
            r matches Ok(rec) ==> spec_aci0_fac(b@, base as int) matches Ok(m) && aci0_fac_matches(
                rec,
                m,
            ),
            r matches Err(e) ==> spec_aci0_fac(b@, base as int) == Err::<Aci0FacModel, _>(e),
    {
        let n = b.len();
        if base > n || n - base < 0x1C {
            return Err(ParseError::TruncatedInput);
        }
        let co_off = read_u32_le(b, base + 0xC);
        let co_size = read_u32_le(b, base + 0x10);
        let sd_off = read_u32_le(b, base + 0x14);
        let sd_size = read_u32_le(b, base + 0x18);
        if co_off != 0x1C && n - base < 0x20 {
            return Err(ParseError::TruncatedInput);
        }
        let co_count = (co_size / 8) as usize;
        let sd_count = (sd_size / 8) as usize;
        if (co_off as u64) + 8 * (co_count as u64) > (n - base) as u64 {
            return Err(ParseError::OutOfBounds);
        }
        if (sd_off as u64) + 8 * (sd_count as u64) > (n - base) as u64 {
            return Err(ParseError::OutOfBounds);
        }
        let content_owner_ids = read_u64_array(b, base + co_off as usize, co_count);
        let save_data_owner_ids = read_u64_array(b, base + sd_off as usize, sd_count);
        let save_data_owner_id_count = if co_off != 0x1C {
            Some(read_u32_le(b, base + 0x1C))
        } else {
            None
        };
        Ok(
            Aci0FsAccessControlRecord {
                version: read_u8(b, base),
                access_flags: FsAccessFlags(read_u64_le(b, base + 4)),
                content_owner_ids,
                save_data_owner_ids,
                save_data_owner_id_count,
            },
        )
    }
}

} // verus!

