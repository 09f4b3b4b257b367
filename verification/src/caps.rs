//! The kernel-capability record stream of a permission record or
//! certificate.
//!
//! Each record is one little-endian 32-bit word whose count of trailing set
//! bits selects the variant; a memory-map record arrives as a pair of words
//! that must both carry exactly six trailing ones.  A word with an
//! unrecognized count is preserved verbatim as `Invalid`, not rejected.

use vstd::prelude::*;
use vstd::std_specs::bits::u32_trailing_ones;
use crate::bytes::{le32, read_u32_le};
use crate::error::ParseError;

verus! {

/// Thread priority and CPU affinity bounds.
#[derive(Debug, Clone, Copy, PartialEq, Eq, Structural)]
pub struct ThreadInfo(pub u32);

/// One entry of the enabled-system-call bitmap.
#[derive(Debug, Clone, Copy, PartialEq, Eq, Structural)]
pub struct SystemCalls(pub u32);

/// First word of a memory-map pair: start address and permission.
#[derive(Debug, Clone, Copy, PartialEq, Eq, Structural)]
pub struct MemoryMapAddrRo(pub u32);

/// Second word of a memory-map pair: size and mapping type.
#[derive(Debug, Clone, Copy, PartialEq, Eq, Structural)]
pub struct MemoryMapSizeType(pub u32);

/// An IO-memory mapping entry.
#[derive(Debug, Clone, Copy, PartialEq, Eq, Structural)]
pub struct IoMemoryMap(pub u32);

/// A memory-region mapping entry.
#[derive(Debug, Clone, Copy, PartialEq, Eq, Structural)]
pub struct MemoryRegionMap(pub u32);

/// A pair of enabled interrupt numbers.
#[derive(Debug, Clone, Copy, PartialEq, Eq, Structural)]
pub struct Interrupts(pub u32);

/// Miscellaneous program parameters.
#[derive(Debug, Clone, Copy, PartialEq, Eq, Structural)]
pub struct MiscParams(pub u32);

/// The lowest kernel version the program accepts.
#[derive(Debug, Clone, Copy, PartialEq, Eq, Structural)]
pub struct KernelVersion(pub u32);

/// The handle-table size bound.
#[derive(Debug, Clone, Copy, PartialEq, Eq, Structural)]
pub struct HandleTableSize(pub u32);

/// Miscellaneous debug flags.
#[derive(Debug, Clone, Copy, PartialEq, Eq, Structural)]
pub struct MiscFlags(pub u32);

/// One decoded kernel-capability record.
#[derive(Debug, Clone, Copy, PartialEq, Eq, Structural)]
pub enum KernelCapability {
    ThreadInfo(ThreadInfo),
    EnableSystemCalls(SystemCalls),
    MemoryMap(MemoryMapAddrRo, MemoryMapSizeType),
    IoMemoryMap(IoMemoryMap),
    MemoryRegionMap(MemoryRegionMap),
    EnableInterrupts(Interrupts),
    MiscParams(MiscParams),
    KernelVersion(KernelVersion),
    HandleTableSize(HandleTableSize),
    MiscFlags(MiscFlags),
    /// An unrecognized capability word, preserved verbatim.
    Invalid(u32),
}

/// The variant a lone word decodes to, selected by its count of trailing
/// set bits.  A count of six is the memory-map pair and is not handled
/// here.
pub open spec fn spec_single_cap(w: u32) -> KernelCapability {
    let n = u32_trailing_ones(w);
    if n == 3 {
        KernelCapability::ThreadInfo(ThreadInfo(w))
    } else if n == 4 {
        KernelCapability::EnableSystemCalls(SystemCalls(w))
    } else if n == 7 {
        KernelCapability::IoMemoryMap(IoMemoryMap(w))
    } else if n == 10 {
        KernelCapability::MemoryRegionMap(MemoryRegionMap(w))
    } else if n == 11 {
        KernelCapability::EnableInterrupts(Interrupts(w))
    } else if n == 13 {
        KernelCapability::MiscParams(MiscParams(w))
    } else if n == 14 {
        KernelCapability::KernelVersion(KernelVersion(w))
    } else if n == 15 {
        KernelCapability::HandleTableSize(HandleTableSize(w))
    } else if n == 16 {
        KernelCapability::MiscFlags(MiscFlags(w))
    } else {
        KernelCapability::Invalid(w)
    }
}

/// The capability records encoded from byte offset `i` to the end of the
/// buffer.
///
/// The stream stops exactly at the declared byte count: a partially
/// consumed final record is a hard `TruncatedInput` error, and a word with
/// six trailing ones whose follower does not also carry six is
/// `PairedRecordMismatch`.
pub open spec fn spec_caps_from(b: Seq<u8>, i: int) -> Result<Seq<KernelCapability>, ParseError>
    decreases b.len() - i,
{
    if i < 0 || i > b.len() {
        Err(ParseError::TruncatedInput)
    } else if i == b.len() {
        Ok(Seq::empty())
    } else if i + 4 > b.len() {
        Err(ParseError::TruncatedInput)
    } else {
        let w = le32(b, i);
        if u32_trailing_ones(w) == 6 {
            if i + 8 > b.len() {
                Err(ParseError::TruncatedInput)
            } else {
                let w2 = le32(b, i + 4);
                if u32_trailing_ones(w2) != 6 {
                    Err(ParseError::PairedRecordMismatch)
                } else {
                    match spec_caps_from(b, i + 8) {
                        Ok(rest) => Ok(
                            seq![
                                KernelCapability::MemoryMap(
                                    MemoryMapAddrRo(w),
                                    MemoryMapSizeType(w2),
                                ),
                            ] + rest,
                        ),
                        Err(e) => Err(e),
                    }
                }
            }
        } else {
            match spec_caps_from(b, i + 4) {
                Ok(rest) => Ok(seq![spec_single_cap(w)] + rest),
                Err(e) => Err(e),
            }
        }
    }
}

/// Decodes the capability records between byte offset `i` and the end of
/// the buffer.
fn decode_caps_from(b: &[u8], i: usize) -> (r: Result<Vec<KernelCapability>, ParseError>)
    requires
        i <= b@.len(),
    ensures
        r matches Ok(v) ==> spec_caps_from(b@, i as int) == Ok::<_, ParseError>(v@),
        r matches Err(e) ==> spec_caps_from(b@, i as int) == Err::<Seq<KernelCapability>,
            _,
        >(e),
    decreases b@.len() - i,
{
    let n = b.len();
    if i == n {
        return Ok(Vec::new());
    }
    if n - i < 4 {
        return Err(ParseError::TruncatedInput);
    }
    let w = read_u32_le(b, i);
    if w.trailing_ones() == 6 {
        if n - i < 8 {
            return Err(ParseError::TruncatedInput);
        }
        let w2 = read_u32_le(b, i + 4);
        if w2.trailing_ones() != 6 {
            return Err(ParseError::PairedRecordMismatch);
        }
        let mut rest = decode_caps_from(b, i + 8)?;
        let ghost rest0 = rest@;
        rest.insert(0, KernelCapability::MemoryMap(MemoryMapAddrRo(w), MemoryMapSizeType(w2)));
        proof {
            assert(rest@ =~= seq![
                KernelCapability::MemoryMap(MemoryMapAddrRo(w), MemoryMapSizeType(w2)),
            ] + rest0);
        }
        Ok(rest)
    } else {
        let head = if w.trailing_ones() == 3 {
            KernelCapability::ThreadInfo(ThreadInfo(w))
        } else if w.trailing_ones() == 4 {
            KernelCapability::EnableSystemCalls(SystemCalls(w))
        } else if w.trailing_ones() == 7 {
            KernelCapability::IoMemoryMap(IoMemoryMap(w))
        } else if w.trailing_ones() == 10 {
            KernelCapability::MemoryRegionMap(MemoryRegionMap(w))
        } else if w.trailing_ones() == 11 {
            KernelCapability::EnableInterrupts(Interrupts(w))
        } else if w.trailing_ones() == 13 {
            KernelCapability::MiscParams(MiscParams(w))
        } else if w.trailing_ones() == 14 {
            KernelCapability::KernelVersion(KernelVersion(w))
        } else if w.trailing_ones() == 15 {
            KernelCapability::HandleTableSize(HandleTableSize(w))
        } else if w.trailing_ones() == 16 {
            KernelCapability::MiscFlags(MiscFlags(w))
        } else {
            KernelCapability::Invalid(w)
        };
        assert(head == spec_single_cap(w));
        let mut rest = decode_caps_from(b, i + 4)?;
        let ghost rest0 = rest@;
        rest.insert(0, head);
        proof {
            assert(rest@ =~= seq![head] + rest0);
        }
        Ok(rest)
    }
}

/// Decodes a whole kernel-capability buffer.
///
/// Succeeds exactly when the buffer is a sequence of complete records, and
/// then returns exactly the records [`spec_caps_from`] describes, in
/// order.
pub fn decode_kernel_capabilities(b: &[u8]) -> (r: Result<Vec<KernelCapability>, ParseError>)
    ensures
        r matches Ok(v) ==> spec_caps_from(b@, 0) == Ok::<_, ParseError>(v@),
        r matches Err(e) ==> spec_caps_from(b@, 0) == Err::<Seq<KernelCapability>, _>(e),
{
    decode_caps_from(b, 0)
}

/// A word with three trailing ones always decodes to a `ThreadInfo`
/// record at the head of the stream.
pub proof fn lemma_three_trailing_ones_is_thread_info(b: Seq<u8>, i: int, rest: Seq<
    KernelCapability,
>)
    requires
        0 <= i,
        i + 4 <= b.len(),
        u32_trailing_ones(le32(b, i)) == 3,
        spec_caps_from(b, i + 4) == Ok::<_, ParseError>(rest),
    ensures
        spec_caps_from(b, i) == Ok::<_, ParseError>(
            seq![KernelCapability::ThreadInfo(ThreadInfo(le32(b, i)))] + rest,
        ),
{
}

/// Two consecutive words with six trailing ones each decode to a single
/// `MemoryMap` record at the head of the stream.
pub proof fn lemma_paired_words_are_memory_map(b: Seq<u8>, i: int, rest: Seq<KernelCapability>)
    requires
        0 <= i,
        i + 8 <= b.len(),
        u32_trailing_ones(le32(b, i)) == 6,
        u32_trailing_ones(le32(b, i + 4)) == 6,
        spec_caps_from(b, i + 8) == Ok::<_, ParseError>(rest),
    ensures
        spec_caps_from(b, i) == Ok::<_, ParseError>(
            seq![
                KernelCapability::MemoryMap(
                    MemoryMapAddrRo(le32(b, i)),
                    MemoryMapSizeType(le32(b, i + 4)),
                ),
            ] + rest,
        ),
{
}

/// A word with six trailing ones whose successor carries a different
/// trailing-ones count fails the whole stream with
/// `PairedRecordMismatch`.
pub proof fn lemma_unpaired_word_is_mismatch(b: Seq<u8>, i: int)
    requires
        0 <= i,
        i + 8 <= b.len(),
        u32_trailing_ones(le32(b, i)) == 6,
        u32_trailing_ones(le32(b, i + 4)) != 6,
    ensures
        spec_caps_from(b, i) == Err::<Seq<KernelCapability>, _>(ParseError::PairedRecordMismatch),
{
}


/// Whether a mapped range is writable or read-only.
#[derive(Debug, Clone, Copy, PartialEq, Eq, Structural)]
pub enum MemoryMapPermission {
    Rw,
    Ro,
}

/// Whether a mapping is IO or static memory.
#[derive(Debug, Clone, Copy, PartialEq, Eq, Structural)]
pub enum MemoryMapType {
    Io,
    Static,
}

/// The special memory regions a capability can map.
#[derive(Debug, Clone, Copy, PartialEq, Eq, Structural)]
pub enum MemoryRegionType {
    NoMapping,
    KernelTraceBuffer,
    OnMemoryBootImage,
    Dtb,
    Invalid,
}

/// The program kinds the miscellaneous-parameters capability selects.
#[derive(Debug, Clone, Copy, PartialEq, Eq, Structural)]
pub enum ProgramType {
    System,
    Application,
    Applet,
    Invalid,
}

pub open spec fn spec_memory_map_permission(v: u8) -> MemoryMapPermission {
    if v == 0 {
        MemoryMapPermission::Rw
    } else {
        MemoryMapPermission::Ro
    }
}

fn memorymappermission_from(v: u8) -> (r: MemoryMapPermission)
    ensures
        r == spec_memory_map_permission(v),
{
    if v == 0 {
        MemoryMapPermission::Rw
    } else {
        MemoryMapPermission::Ro
    }
}

pub open spec fn spec_memory_map_type(v: u8) -> MemoryMapType {
    if v == 0 {
        MemoryMapType::Io
    } else {
        MemoryMapType::Static
    }
}

fn memorymaptype_from(v: u8) -> (r: MemoryMapType)
    ensures
        r == spec_memory_map_type(v),
{
    if v == 0 {
        MemoryMapType::Io
    } else {
        MemoryMapType::Static
    }
}

pub open spec fn spec_memory_region_type(v: u8) -> MemoryRegionType {
    if v == 0 {
        MemoryRegionType::NoMapping
    } else if v == 1 {
        MemoryRegionType::KernelTraceBuffer
    } else if v == 2 {
        MemoryRegionType::OnMemoryBootImage
    } else if v == 3 {
        MemoryRegionType::Dtb
    } else {
        MemoryRegionType::Invalid
    }
}

fn memoryregiontype_from(v: u8) -> (r: MemoryRegionType)
    ensures
        r == spec_memory_region_type(v),
{
    if v == 0 {
        MemoryRegionType::NoMapping
    } else if v == 1 {
        MemoryRegionType::KernelTraceBuffer
    } else if v == 2 {
        MemoryRegionType::OnMemoryBootImage
    } else if v == 3 {
        MemoryRegionType::Dtb
    } else {
        MemoryRegionType::Invalid
    }
}

pub open spec fn spec_program_type(v: u8) -> ProgramType {
    if v == 0 {
        ProgramType::System
    } else if v == 1 {
        ProgramType::Application
    } else if v == 2 {
        ProgramType::Applet
    } else {
        ProgramType::Invalid
    }
}

fn programtype_from(v: u8) -> (r: ProgramType)
    ensures
        r == spec_program_type(v),
{
    if v == 0 {
        ProgramType::System
    } else if v == 1 {
        ProgramType::Application
    } else if v == 2 {
        ProgramType::Applet
    } else {
        ProgramType::Invalid
    }
}

impl ThreadInfo {
    /// The whole raw word.
    pub fn raw(&self) -> (r: u32)
        ensures
            r == self.0,
    {
        self.0
    }

    /// Bits 4..=9 of the raw word.
    pub fn lowest_thread_priority(&self) -> (r: u8)
        ensures
            r == ((self.0 >> 4) & 0x3F) as u8,
    {
        ((self.0 >> 4) & 0x3F) as u8
    }
    /// Bits 10..=15 of the raw word.
    pub fn highest_thread_priority(&self) -> (r: u8)
        ensures
            r == ((self.0 >> 10) & 0x3F) as u8,
    {
        ((self.0 >> 10) & 0x3F) as u8
    }
    /// Bits 16..=23 of the raw word.
    pub fn lowest_cpu_id(&self) -> (r: u8)
        ensures
            r == ((self.0 >> 16) & 0xFF) as u8,
    {
        ((self.0 >> 16) & 0xFF) as u8
    }
    /// Bits 24..=31 of the raw word.
    pub fn highest_cpu_id(&self) -> (r: u8)
        ensures
            r == ((self.0 >> 24) & 0xFF) as u8,
    {
        ((self.0 >> 24) & 0xFF) as u8
    }
}

impl SystemCalls {
    /// The whole raw word.
    pub fn raw(&self) -> (r: u32)
        ensures
            r == self.0,
    {
        self.0
    }

    /// Bits 5..=28 of the raw word.
    pub fn syscall_id(&self) -> (r: u32)
        ensures
            r == ((self.0 >> 5) & 0xFFFFFF) as u32,
    {
        ((self.0 >> 5) & 0xFFFFFF) as u32
    }
    /// Bits 29..=31 of the raw word.
    pub fn index(&self) -> (r: u8)
        ensures
            r == ((self.0 >> 29) & 0x7) as u8,
    {
        ((self.0 >> 29) & 0x7) as u8
    }
}

impl MemoryMapAddrRo {
    /// The whole raw word.
    pub fn raw(&self) -> (r: u32)
        ensures
            r == self.0,
    {
        self.0
    }

    /// Bits 7..=30 of the raw word.
    pub fn start_address(&self) -> (r: u32)
        ensures
            r == ((self.0 >> 7) & 0xFFFFFF) as u32,
    {
        ((self.0 >> 7) & 0xFFFFFF) as u32
    }
    /// Bits 31..=31 of the raw word, decoded.
    pub fn memory_permission(&self) -> (r: MemoryMapPermission)
        ensures
            r == spec_memory_map_permission(((self.0 >> 31) & 0x1) as u8),
    {
        memorymappermission_from(((self.0 >> 31) & 0x1) as u8)
    }
}

impl MemoryMapSizeType {
    /// The whole raw word.
    pub fn raw(&self) -> (r: u32)
        ensures
            r == self.0,
    {
        self.0
    }

    /// Bits 7..=26 of the raw word.
    pub fn size(&self) -> (r: u32)
        ensures
            r == ((self.0 >> 7) & 0xFFFFF) as u32,
    {
        ((self.0 >> 7) & 0xFFFFF) as u32
    }
    /// Bits 31..=31 of the raw word, decoded.
    pub fn map_type(&self) -> (r: MemoryMapType)
        ensures
            r == spec_memory_map_type(((self.0 >> 31) & 0x1) as u8),
    {
        memorymaptype_from(((self.0 >> 31) & 0x1) as u8)
    }
}

impl IoMemoryMap {
    /// The whole raw word.
    pub fn raw(&self) -> (r: u32)
        ensures
            r == self.0,
    {
        self.0
    }

    /// Bits 8..=31 of the raw word.
    pub fn start_address(&self) -> (r: u32)
        ensures
            r == ((self.0 >> 8) & 0xFFFFFF) as u32,
    {
        ((self.0 >> 8) & 0xFFFFFF) as u32
    }
}

impl MemoryRegionMap {
    /// The whole raw word.
    pub fn raw(&self) -> (r: u32)
        ensures
            r == self.0,
    {
        self.0
    }

    /// Bits 11..=16 of the raw word, decoded.
    pub fn region0_type(&self) -> (r: MemoryRegionType)
        ensures
            r == spec_memory_region_type(((self.0 >> 11) & 0x3F) as u8),
    {
        memoryregiontype_from(((self.0 >> 11) & 0x3F) as u8)
    }
    /// Bit 17 of the raw word.
    pub fn region0_is_ro(&self) -> (r: bool)
        ensures
            r == (((self.0 >> 17) & 1) == 1),
    {
        ((self.0 >> 17) & 1) == 1
    }
    /// Bits 18..=23 of the raw word, decoded.
    pub fn region1_type(&self) -> (r: MemoryRegionType)
        ensures
            r == spec_memory_region_type(((self.0 >> 18) & 0x3F) as u8),
    {
        memoryregiontype_from(((self.0 >> 18) & 0x3F) as u8)
    }
    /// Bit 24 of the raw word.
    pub fn region1_is_ro(&self) -> (r: bool)
        ensures
            r == (((self.0 >> 24) & 1) == 1),
    {
        ((self.0 >> 24) & 1) == 1
    }
    /// Bits 25..=30 of the raw word, decoded.
    pub fn region2_type(&self) -> (r: MemoryRegionType)
        ensures
            r == spec_memory_region_type(((self.0 >> 25) & 0x3F) as u8),
    {
        memoryregiontype_from(((self.0 >> 25) & 0x3F) as u8)
    }
    /// Bit 31 of the raw word.
    pub fn region2_is_ro(&self) -> (r: bool)
        ensures
            r == (((self.0 >> 31) & 1) == 1),
    {
        ((self.0 >> 31) & 1) == 1
    }
}

impl Interrupts {
    /// The whole raw word.
    pub fn raw(&self) -> (r: u32)
        ensures
            r == self.0,
    {
        self.0
    }

    /// Bits 12..=21 of the raw word.
    pub fn irq1(&self) -> (r: u16)
        ensures
            r == ((self.0 >> 12) & 0x3FF) as u16,
    {
        ((self.0 >> 12) & 0x3FF) as u16
    }
    /// Bits 22..=31 of the raw word.
    pub fn irq2(&self) -> (r: u16)
        ensures
            r == ((self.0 >> 22) & 0x3FF) as u16,
    {
        ((self.0 >> 22) & 0x3FF) as u16
    }
}

impl MiscParams {
    /// The whole raw word.
    pub fn raw(&self) -> (r: u32)
        ensures
            r == self.0,
    {
        self.0
    }

    /// Bits 14..=16 of the raw word, decoded.
    pub fn program_type(&self) -> (r: ProgramType)
        ensures
            r == spec_program_type(((self.0 >> 14) & 0x7) as u8),
    {
        programtype_from(((self.0 >> 14) & 0x7) as u8)
    }
}

impl KernelVersion {
    /// The whole raw word.
    pub fn raw(&self) -> (r: u32)
        ensures
            r == self.0,
    {
        self.0
    }

    /// Bits 15..=18 of the raw word.
    pub fn minor_version(&self) -> (r: u8)
        ensures
            r == ((self.0 >> 15) & 0xF) as u8,
    {
        ((self.0 >> 15) & 0xF) as u8
    }
    /// Bits 19..=31 of the raw word.
    pub fn major_version(&self) -> (r: u16)
        ensures
            r == ((self.0 >> 19) & 0x1FFF) as u16,
    {
        ((self.0 >> 19) & 0x1FFF) as u16
    }
}

impl HandleTableSize {
    /// The whole raw word.
    pub fn raw(&self) -> (r: u32)
        ensures
            r == self.0,
    {
        self.0
    }

    /// Bits 16..=25 of the raw word.
    pub fn table_size(&self) -> (r: u16)
        ensures
            r == ((self.0 >> 16) & 0x3FF) as u16,
    {
        ((self.0 >> 16) & 0x3FF) as u16
    }
}

impl MiscFlags {
    /// The whole raw word.
    pub fn raw(&self) -> (r: u32)
        ensures
            r == self.0,
    {
        self.0
    }

    /// Bit 17 of the raw word.
    pub fn enable_debug(&self) -> (r: bool)
        ensures
            r == (((self.0 >> 17) & 1) == 1),
    {
        ((self.0 >> 17) & 1) == 1
    }
    /// Bit 18 of the raw word.
    pub fn force_debug(&self) -> (r: bool)
        ensures
            r == (((self.0 >> 18) & 1) == 1),
    {
        ((self.0 >> 18) & 1) == 1
    }
}

} // verus!

