//! The contracts of a directory listing and of the entries it yields.

use vstd::prelude::*;

verus! {

/// One entry of a directory, as a listing saw it.
///
/// An entry is a snapshot. Asking it for metadata or for its file type may
/// fail, and says nothing about the directory as it is now.
///
/// The model of an entry is the directory that was listed and the bare name
/// of the entry in it. A backend defines it beside the operations.
pub trait DirEntry {
    /// The borrowed path slice of the filesystem.
    type Path: ?Sized;

    /// The owned path of the filesystem.
    type PathOwned;

    /// The metadata of a file.
    type Metadata;

    /// The union of all possible file types.
    type FileType;

    /// The type of everything that can go wrong while asking.
    type Error;

    /// The directory whose listing yielded this entry: the path that was
    /// handed to [`Fs::read_dir`](crate::Fs::read_dir).
    spec fn parent(&self) -> &Self::Path;

    /// The bare name of this entry, without any leading component.
    spec fn name(&self) -> &Self::Path;

    /// The path that names `name` inside the directory `dir`.
    spec fn join(dir: &Self::Path, name: &Self::Path) -> Self::PathOwned;

    /// Returns the full path of the entry: the path that was listed, joined
    /// with the name of the entry.
    fn path(&self) -> (r: Self::PathOwned)
        ensures
            r == Self::join(self.parent(), self.name()),
    ;

    /// Returns the metadata of the file that the entry names. A symlink is
    /// not followed: the metadata is that of the link.
    fn metadata(&self) -> (r: Result<Self::Metadata, Self::Error>);

    /// Returns the type of the file that the entry names. A symlink is not
    /// followed: the type is that of the link.
    fn file_type(&self) -> (r: Result<Self::FileType, Self::Error>);

    /// Returns the bare name of the entry, borrowed from it.
    fn file_name(&self) -> (r: &Self::Path)
        ensures
            r == self.name(),
    ;
}

/// A listing of a directory: the sequence of its entries, consumed from the
/// front.
///
/// [`Fs::read_dir`](crate::Fs::read_dir) returns one when the directory could
/// be opened. Each step may still fail on its own. To go through the
/// directory again, list it again.
pub trait Dir<T: DirEntry, E>: Iterator<Item = Result<T, E>> {
}

} // verus!
