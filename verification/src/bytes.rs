//! Bounds-checked primitives over a backing byte buffer.
//!
//! Every container format here stores structure members as *offsets* into
//! the same byte stream rather than inline data.  The whole backing source
//! is treated as an arena and an offset as an index into it: a logical
//! reference is a pair (buffer, byte offset) resolved through
//! [`resolve_range`], never a native pointer.  A resolution that would
//! leave the buffer yields `OutOfBounds`; it is never silently clamped.

use vstd::prelude::*;
use vstd::slice::{slice_subrange, slice_to_vec};
use crate::error::ParseError;

verus! {

/// The little-endian `u32` stored at byte offset `i`.
pub open spec fn le32(b: Seq<u8>, i: int) -> u32 {
    vstd::bytes::spec_u32_from_le_bytes(b.subrange(i, i + 4))
}

/// The little-endian `u64` stored at byte offset `i`.
pub open spec fn le64(b: Seq<u8>, i: int) -> u64 {
    vstd::bytes::spec_u64_from_le_bytes(b.subrange(i, i + 8))
}

/// True when every byte of `s` is zero.
pub open spec fn all_zero(s: Seq<u8>) -> bool {
    forall|i: int| 0 <= i < s.len() ==> s[i] == 0
}

pub fn read_u8(b: &[u8], i: usize) -> (r: u8)
    requires
        i < b@.len(),
    ensures
        r == b@[i as int],
{
    b[i]
}

pub fn read_u32_le(b: &[u8], i: usize) -> (r: u32)
    requires
        i + 4 <= b@.len(),
    ensures
        r == le32(b@, i as int),
{
    let _n: usize = b.len();
    let s = slice_subrange(b, i, i + 4);
    vstd::bytes::u32_from_le_bytes(s)
}

pub fn read_u64_le(b: &[u8], i: usize) -> (r: u64)
    requires
        i + 8 <= b@.len(),
    ensures
        r == le64(b@, i as int),
{
    let _n: usize = b.len();
    let s = slice_subrange(b, i, i + 8);
    vstd::bytes::u64_from_le_bytes(s)
}

/// Copies the `n` bytes starting at offset `i` out of the buffer.
pub fn bytes_range(b: &[u8], i: usize, n: usize) -> (r: Vec<u8>)
    requires
        i + n <= b@.len(),
    ensures
        r@ == b@.subrange(i as int, i + n),
{
    let _m: usize = b.len();
    let s = slice_subrange(b, i, i + n);
    slice_to_vec(s)
}

/// True exactly when the `n` bytes starting at offset `i` are all zero.
pub fn is_zero_range(b: &[u8], i: usize, n: usize) -> (r: bool)
    requires
        i + n <= b@.len(),
    ensures
        r == all_zero(b@.subrange(i as int, i + n)),
{
    let _m: usize = b.len();
    let mut k: usize = 0;
    while k < n
        invariant
            k <= n,
            i + n <= b@.len(),
            i + n <= usize::MAX,
            forall|j: int| i <= j < i + k ==> #[trigger] b@[j] == 0,
        decreases n - k,
    {
        if b[i + k] != 0 {
            assert(b@.subrange(i as int, i + n)[k as int] == b@[i + k]);
            return false;
        }
        k += 1;
    }
    assert forall|j: int| 0 <= j < n implies #[trigger] b@.subrange(i as int, i + n)[j]
        == 0 by {
        assert(b@[i + j] == 0);
    }
    true
}

/// True exactly when the two byte sequences are equal.
pub fn bytes_eq(a: &[u8], b: &[u8]) -> (r: bool)
    ensures
        r == (a@ == b@),
{
    if a.len() != b.len() {
        assert(a@.len() != b@.len());
        return false;
    }
    let n = a.len();
    let mut k: usize = 0;
    while k < n
        invariant
            k <= n,
            n == a@.len() == b@.len(),
            forall|j: int| 0 <= j < k ==> a@[j] == b@[j],
        decreases n - k,
    {
        if a[k] != b[k] {
            return false;
        }
        k += 1;
    }
    proof {
        assert(a@ =~= b@);
    }
    true
}

/// Whether the range `base + offset .. base + offset + size` stays within a
/// backing buffer of `limit` bytes, with no arithmetic overflow anywhere.
pub open spec fn range_ok(base: u64, offset: u64, size: u64, limit: u64) -> bool {
    base + offset + size <= limit
}

/// Resolves `base + offset` as the absolute position of a `size`-byte value
/// and checks the whole range against the backing length.
///
/// This is the single offset-indirection mechanism every decoder is built
/// on: a failure is `OutOfBounds`, never a clamped position.
pub fn resolve_range(base: u64, offset: u64, size: u64, limit: u64) -> (r: Result<
    u64,
    ParseError,
>)
    ensures
        range_ok(base, offset, size, limit) ==> r == Ok::<u64, ParseError>(
            (base + offset) as u64,
        ),
        !range_ok(base, offset, size, limit) ==> r == Err::<u64, ParseError>(
            ParseError::OutOfBounds,
        ),
{
    match base.checked_add(offset) {
        Some(pos) => match pos.checked_add(size) {
            Some(end) => {
                if end <= limit {
                    Ok(pos)
                } else {
                    Err(ParseError::OutOfBounds)
                }
            },
            None => Err(ParseError::OutOfBounds),
        },
        None => Err(ParseError::OutOfBounds),
    }
}

} // verus!
