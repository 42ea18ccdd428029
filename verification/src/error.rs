//! What can go wrong.

use vstd::prelude::*;

verus! {

/// Why a directory could not be read.
#[derive(Clone, Copy, Debug, PartialEq, Eq, Structural)]
pub enum IoError {
    /// There is no such directory, or no longer.
    NotFound,
    /// The directory may not be read.
    PermissionDenied,
    /// Any other failure of the file system.
    Other,
}

/// Why an operation on a pane or on the set of panes failed.
#[derive(Clone, Copy, Debug, PartialEq, Eq, Structural)]
pub enum Error {
    /// A directory could not be read.
    Io(IoError),
    /// The selected entry is not a directory, or nothing is selected.
    NotADirectory,
    /// There is no pane of that number.
    NoSuchPane,
}

} // verus!
