//! Two example error kinds and the wider kind that holds either.

use vstd::prelude::*;

verus! {

/// A file that was looked for is not there.
#[derive(Debug, PartialEq, Eq, Structural)]
pub struct FileNotFound;

/// The caller may not do what it asked for.
#[derive(Debug, PartialEq, Eq, Structural)]
pub struct PermissionDenied;

/// Any error of the example: each narrower kind has its own variant.
#[derive(Debug, PartialEq, Eq, Structural)]
pub enum BarError {
    FileNotFound(FileNotFound),
    PermissionDenied(PermissionDenied),
}

impl FileNotFound {
    /// The error's description.
    pub fn message(&self) -> (out: String)
        ensures
            out@ == "File not found"@,
    {
        "File not found".to_owned()
    }
}

impl PermissionDenied {
    /// The error's description.
    pub fn message(&self) -> (out: String)
        ensures
            out@ == "Permission denied"@,
    {
        "Permission denied".to_owned()
    }
}

impl BarError {
    /// The description of the error that the variant holds.
    pub fn message(&self) -> (out: String)
        ensures
            out@ == match *self {
                BarError::FileNotFound(_) => "File not found"@,
                BarError::PermissionDenied(_) => "Permission denied"@,
            },
    {
        match self {
            BarError::FileNotFound(e) => e.message(),
            BarError::PermissionDenied(e) => e.message(),
        }
    }
}

impl From<FileNotFound> for BarError {
    /// Widens the error: it is kept in the variant of its kind.
    fn from(e: FileNotFound) -> (out: BarError) {
        BarError::FileNotFound(e)
    }
}

impl vstd::std_specs::convert::FromSpecImpl<FileNotFound> for BarError {
    open spec fn obeys_from_spec() -> bool {
        true
    }

    open spec fn from_spec(e: FileNotFound) -> BarError {
        BarError::FileNotFound(e)
    }
}

impl From<PermissionDenied> for BarError {
    /// Widens the error: it is kept in the variant of its kind.
    fn from(e: PermissionDenied) -> (out: BarError) {
        BarError::PermissionDenied(e)
    }
}

impl vstd::std_specs::convert::FromSpecImpl<PermissionDenied> for BarError {
    open spec fn obeys_from_spec() -> bool {
        true
    }

    open spec fn from_spec(e: PermissionDenied) -> BarError {
        BarError::PermissionDenied(e)
    }
}

} // verus!
