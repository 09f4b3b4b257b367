//! Program-level settings data.

use vstd::prelude::*;

verus! {

/// The kind of backing file a session works on.
#[derive(Debug, Clone, Copy, PartialEq, Eq, Structural)]
pub enum BaseFileType {
    Romfs,
    Nca,
    Nil,
}

} // verus!
