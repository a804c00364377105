//! The classes of failure that the filesystem traits speak of.

use vstd::prelude::*;

verus! {

/// The class of an error, whatever type a backend reports it in.
///
/// A backend keeps its own error type and says, through a spec function of
/// the trait it implements, which class each of its errors belongs to.
#[derive(Copy, Clone, Debug, PartialEq, Eq, Structural, Hash)]
pub enum ErrorKind {
    /// The path, or a component of it, names nothing.
    NotFound,
    /// The caller may not perform the operation.
    PermissionDenied,
    /// The path is already taken.
    AlreadyExists,
    /// A component that has to be a directory is not one.
    NotADirectory,
    /// The path names a directory where a file is needed.
    IsADirectory,
    /// The directory still holds entries.
    DirectoryNotEmpty,
    /// The two paths lie on different devices or mount points.
    CrossesDevices,
    /// The request makes no sense: a seek before byte 0, reading a link that
    /// is none.
    InvalidInput,
    /// Any failure of the backend outside the classes above.
    Other,
}

} // verus!
