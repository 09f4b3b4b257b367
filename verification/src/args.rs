//! The command surface, as plain data: what file type to work on, which
//! actions to run, and where the input and output live.  Argument
//! collection itself is I/O and lives with the caller.

use vstd::prelude::*;
use crate::keys::KeysetType;

verus! {

/// The base file types the tool works on.
#[derive(Debug, Clone, Copy, PartialEq, Eq, Structural)]
pub enum SupportedFileTypes {
    Npdm,
    Pfs0,
    Nca,
}

/// The actions that can be requested on an input file.
#[derive(Debug, Clone, Copy, PartialEq, Eq, PartialOrd, Ord, Structural)]
pub enum Action {
    Info,
    Verify,
    Extract,
    Create,
}

/// One parsed invocation.
#[derive(Debug)]
pub struct Args {
    /// The base file type to work on.
    pub file_type: SupportedFileTypes,
    /// The actions required on the input, in the order they will run.
    pub action: Vec<Action>,
    /// Input file or folder.
    pub input: Option<String>,
    /// Output file or folder.
    pub output: Option<String>,
    /// Which key set signatures are checked against.
    pub keyset: KeysetType,
}

} // verus!
