//! Error taxonomy shared by every decoder, and the outcome type of
//! signature verification.

use vstd::prelude::*;

verus! {

/// What can go wrong while decoding a container or loading keys.
///
/// Structural faults (bad magic, out-of-range offsets, truncated records)
/// abort the whole decode; the enumerations inside a content-archive header
/// instead degrade to a sentinel variant, so a corrupt advisory enum never
/// produces one of these.
#[derive(Clone, Copy, Debug, PartialEq, Eq, Structural)]
pub enum ParseError {
    /// A magic value or tag did not match the expected format.
    FormatMismatch,
    /// The input ended before a complete record or header was available.
    TruncatedInput,
    /// A declared offset or length points outside the backing bytes.
    OutOfBounds,
    /// A recognized key-file entry decoded to the wrong number of bytes.
    KeyLengthMismatch,
    /// A key slot needed for an operation holds no material.
    MissingKey,
    /// A kernel-capability word that must arrive in a pair arrived alone.
    PairedRecordMismatch,
    /// A named file is absent from an archive.
    NotFound,
    /// A section or superblock type whose layout is deliberately not
    /// supported; it fails loudly instead of being skipped.
    Unimplemented,
}

/// Outcome of a cryptographic check.
///
/// `Invalid` is a content fault (the certificate does not verify);
/// `CheckError` is a tooling fault (the key material itself was unusable).
#[derive(Clone, Copy, Debug, PartialEq, Eq, Structural)]
pub enum Validity {
    Unchecked,
    Invalid,
    Valid,
    CheckError,
}

} // verus!
