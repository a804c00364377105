//! The contract of a filesystem.

use vstd::prelude::*;
use vstd::std_specs::iter::IteratorSpec;
use crate::dir::{Dir, DirEntry};
use crate::error::ErrorKind;
use crate::file::File;
use crate::options::{DirOptions, OpenOptions};

verus! {

/// Filesystem manipulation operations: the root from which files, listings
/// and metadata are had, and through which whole paths are renamed, copied,
/// linked and removed.
///
/// Every operation blocks until it has succeeded or failed, and reports a
/// failure as a value. An operation that may change what paths name or what
/// a file holds takes the filesystem by exclusive reference, [`open`]
/// among them, as it may create or truncate; one that only looks takes it by
/// shared reference.
///
/// The model of a filesystem says what the two metadata queries report for
/// each path, which bytes a file holds, which directories hold entries, and
/// where links lead. A backend defines it beside the operations, together
/// with a few readings of its metadata and errors. The contracts below state
/// each operation over that model. They never promise success: a backend may
/// refuse for want of permission, or fail on its own account. An error
/// belongs to one of the classes that the operation names, or is a fault of
/// the backend of no class.
///
/// A file changes what it is open on without the filesystem at hand. So the
/// model tells the nodes apart on which a file was opened for writing: of
/// such a node it still says a length and bytes, but no query is held to
/// them. What was written is seen through the file: a path names the node
/// that the file is open on.
///
/// [`open`]: Fs::open
pub trait Fs {
    /// The borrowed path slice that names a place on the filesystem,
    /// relative or absolute.
    type Path: ?Sized;

    /// The owned form of a path.
    type PathOwned;

    /// An open file.
    type File: File<Error = Self::Error>;

    /// A listing of a directory.
    type Dir: Dir<Self::DirEntry, Self::Error>;

    /// An entry of a directory.
    type DirEntry: DirEntry<Path = Self::Path, Metadata = Self::Metadata, Error = Self::Error>;

    /// The metadata of a file.
    type Metadata;

    /// The permissions of a reader or writer.
    type Permissions;

    /// The type of everything that can go wrong.
    type Error;

    /// The class that an error of this filesystem belongs to.
    spec fn kind(e: &Self::Error) -> ErrorKind;

    /// What `path` names, a symlink at its end taken as itself: the metadata
    /// that [`symlink_metadata`](Self::symlink_metadata) reports, or `None`
    /// where the path names nothing.
    spec fn lstat(&self, path: &Self::Path) -> Option<Self::Metadata>;

    /// What `path` names once all symlinks are followed: the metadata that
    /// [`metadata`](Self::metadata) reports, or `None` where the path names
    /// nothing or leads nowhere.
    spec fn stat(&self, path: &Self::Path) -> Option<Self::Metadata>;

    /// The node that the metadata is of: the number by which the filesystem
    /// tells its files and directories apart, whatever paths name them. Two
    /// paths name one entry where their metadata is of one node.
    spec fn node(m: &Self::Metadata) -> u64;

    /// The length in bytes that the metadata reports.
    spec fn length(m: &Self::Metadata) -> u64;

    /// The permissions that the metadata reports.
    spec fn permissions(m: &Self::Metadata) -> Self::Permissions;

    /// Whether the metadata is that of a directory.
    spec fn is_dir(m: &Self::Metadata) -> bool;

    /// The byte at the offset `at` of the file that `path` leads to, for
    /// `at` below the length that [`stat`](Self::stat) reports for it.
    spec fn byte(&self, path: &Self::Path, at: u64) -> u8;

    /// Whether no file has been opened for writing on the node `node`. Only
    /// then is a query held to the length and the bytes that the model says
    /// of the node: a file that writes changes them behind the filesystem.
    spec fn settled(&self, node: u64) -> bool;

    /// Whether `path` names a directory that holds at least one entry.
    spec fn populated(&self, path: &Self::Path) -> bool;

    /// Where the symlink that `path` names points to, as it was written down
    /// and unresolved; `None` where the path names no symlink.
    spec fn link_target(&self, path: &Self::Path) -> Option<Self::PathOwned>;

    /// The canonical form of `path`: absolute, with all symlinks and all `.`
    /// and `..` components resolved; `None` where the path leads nowhere.
    spec fn canonical(&self, path: &Self::Path) -> Option<Self::PathOwned>;

    /// The owned form of `path`.
    spec fn owned(path: &Self::Path) -> Self::PathOwned;

    /// A path that leads somewhere names something.
    proof fn resolved_path_names_something(&self, path: &Self::Path)
        ensures
            self.stat(path) is Some ==> self.lstat(path) is Some,
    ;

    /// A file puts an error into the class that its filesystem puts it into.
    proof fn file_classifies_alike(e: &Self::Error)
        ensures
            <Self::File as File>::kind(e) == Self::kind(e),
    ;

    /// Opens the file at `path` as `options` say.
    ///
    /// With `create_new` set the open fails as "already exists" wherever the
    /// path names anything, a dangling symlink included, whatever `create`
    /// and `truncate` say. A file that is not there is created only where
    /// `create` or `create_new` is set together with `write` or `append`;
    /// otherwise the open fails.
    ///
    /// After a success the path leads to the node that the file is open on.
    /// The file is in append mode exactly if `append` is set, and out of
    /// append mode it stands at byte 0. A file that was created is a new
    /// node, empty, with `mode` as its permissions, and a path that named
    /// nothing names it. A file that was there is the node it was, with its
    /// permissions; it is empty where `truncate` counts, which it does only
    /// together with `write`, and else keeps its length and bytes, which the
    /// file shows if the node was settled. Whatever a path named before, it
    /// names after. With `write` or `append` the node is no longer settled.
    fn open(&mut self, path: &Self::Path, options: &OpenOptions<Self::Permissions>) -> (r: Result<
        Self::File,
        Self::Error,
    >)
        ensures
            options@.create_new && old(self).lstat(path) is Some ==> (r matches Err(e)
                && Self::kind(&e) == ErrorKind::AlreadyExists),
            old(self).stat(path) is None && !(options@.creates() && options@.writes())
                ==> r is Err,
            r matches Ok(f) ==> f.appending() == options@.append,
            r matches Ok(f) ==> (!options@.append ==> f.position() == 0),
            r matches Ok(f) ==> (final(self).stat(path) matches Some(m) && Self::node(&m)
                == f.node()),
            r matches Ok(f) ==> (old(self).stat(path) is None ==> {
                &&& f.size() == 0
                &&& final(self).stat(path) matches Some(m)
                &&& Self::length(&m) == 0
                &&& !Self::is_dir(&m)
                &&& Self::permissions(&m) == options@.mode
            }),
            r matches Ok(f) ==> (old(self).stat(path) is None ==> forall|q: &Self::Path|
                #![trigger old(self).lstat(q)]
                old(self).lstat(q) matches Some(o) ==> Self::node(&o) != f.node()),
            r is Ok ==> (old(self).lstat(path) is None
                ==> final(self).lstat(path) == final(self).stat(path)),
            r matches Ok(f) ==> (old(self).stat(path) matches Some(o) ==> {
                &&& final(self).stat(path) matches Some(m)
                &&& Self::node(&m) == Self::node(&o)
                &&& Self::is_dir(&m) == Self::is_dir(&o)
                &&& Self::permissions(&m) == Self::permissions(&o)
                &&& options@.truncates() ==> f.size() == 0 && Self::length(&m) == 0
                &&& !options@.truncates() ==> Self::length(&m) == Self::length(&o)
                &&& !options@.truncates() && old(self).settled(Self::node(&o)) ==> f.size()
                    == Self::length(&o)
            }),
            r matches Ok(f) ==> (old(self).stat(path) is Some && !options@.truncates()
                ==> forall|at: u64|
                #![trigger final(self).byte(path, at)]
                at < f.size() ==> final(self).byte(path, at) == old(self).byte(path, at)),
            r matches Ok(f) ==> (old(self).stat(path) matches Some(o) ==> (!options@.truncates()
                && old(self).settled(Self::node(&o)) ==> forall|at: u64|
                at < f.size() ==> #[trigger] f.byte(at) == old(self).byte(path, at))),
            r is Ok ==> forall|q: &Self::Path|
                #![trigger old(self).lstat(q)]
                #![trigger final(self).lstat(q)]
                old(self).lstat(q) matches Some(o) ==> (final(self).lstat(q) matches Some(m)
                    && Self::node(&m) == Self::node(&o)),
            r matches Ok(f) ==> forall|k: u64|
                #[trigger] final(self).settled(k) == (old(self).settled(k) && !(options@.writes()
                    && k == f.node())),
            r is Err ==> forall|k: u64| #[trigger] final(self).settled(k) == old(self).settled(k),
            r matches Err(e) ==> matches!(
                Self::kind(&e),
                ErrorKind::NotFound
                    | ErrorKind::PermissionDenied
                    | ErrorKind::AlreadyExists
                    | ErrorKind::InvalidInput
                    | ErrorKind::Other
            ),
    ;

    /// Removes a file from the filesystem.
    ///
    /// Fails where `path` names nothing or names a directory. After a
    /// success the path names nothing. Whether the storage is freed at once
    /// is up to the backend: open handles may delay it.
    fn remove_file(&mut self, path: &Self::Path) -> (r: Result<(), Self::Error>)
        ensures
            old(self).lstat(path) is None ==> r is Err,
            old(self).lstat(path) matches Some(m) && Self::is_dir(&m) ==> r is Err,
            r is Ok ==> final(self).lstat(path) is None,
            forall|k: u64| #[trigger] final(self).settled(k) == old(self).settled(k),
            r matches Err(e) ==> matches!(
                Self::kind(&e),
                ErrorKind::NotFound
                    | ErrorKind::PermissionDenied
                    | ErrorKind::IsADirectory
                    | ErrorKind::Other
            ),
    ;

    /// Queries the metadata of what `path` names, following symlinks.
    ///
    /// Fails as "not found" where the path leads nowhere, and there only.
    /// What comes back is of the node that the path leads to, says whether
    /// that is a directory, and has its permissions; it has its length if the
    /// node is settled.
    fn metadata(&self, path: &Self::Path) -> (r: Result<Self::Metadata, Self::Error>)
        ensures
            self.stat(path) is None ==> (r matches Err(e) && Self::kind(&e)
                == ErrorKind::NotFound),
            r matches Err(e) ==> (Self::kind(&e) == ErrorKind::NotFound
                ==> self.stat(path) is None),
            r matches Ok(m) ==> (self.stat(path) matches Some(s) ==> {
                &&& Self::node(&m) == Self::node(&s)
                &&& Self::is_dir(&m) == Self::is_dir(&s)
                &&& Self::permissions(&m) == Self::permissions(&s)
                &&& self.settled(Self::node(&s)) ==> Self::length(&m) == Self::length(&s)
            }),
            r matches Err(e) ==> matches!(
                Self::kind(&e),
                ErrorKind::NotFound
                    | ErrorKind::PermissionDenied
                    | ErrorKind::Other
            ),
    ;

    /// Queries the metadata of what `path` names, without following a symlink
    /// at its end.
    ///
    /// Fails as "not found" where the path names nothing, and there only.
    /// What comes back is of the node that the path names, says whether that
    /// is a directory, and has its permissions; it has its length if the node
    /// is settled.
    fn symlink_metadata(&self, path: &Self::Path) -> (r: Result<Self::Metadata, Self::Error>)
        ensures
            self.lstat(path) is None ==> (r matches Err(e) && Self::kind(&e)
                == ErrorKind::NotFound),
            r matches Err(e) ==> (Self::kind(&e) == ErrorKind::NotFound
                ==> self.lstat(path) is None),
            r matches Ok(m) ==> (self.lstat(path) matches Some(s) ==> {
                &&& Self::node(&m) == Self::node(&s)
                &&& Self::is_dir(&m) == Self::is_dir(&s)
                &&& Self::permissions(&m) == Self::permissions(&s)
                &&& self.settled(Self::node(&s)) ==> Self::length(&m) == Self::length(&s)
            }),
            r matches Err(e) ==> matches!(
                Self::kind(&e),
                ErrorKind::NotFound
                    | ErrorKind::PermissionDenied
                    | ErrorKind::Other
            ),
    ;

    /// Renames a file or directory, replacing what `to` named before.
    ///
    /// Fails where `from` names nothing. After a success `to` names the node
    /// that `from` named, with its permissions, and with its length and bytes
    /// where it is a file; and `from` names nothing, unless the two paths
    /// named one entry before. A rename across mount points or devices need
    /// not work.
    fn rename(&mut self, from: &Self::Path, to: &Self::Path) -> (r: Result<(), Self::Error>)
        ensures
            old(self).lstat(from) is None ==> r is Err,
            r is Ok ==> (old(self).lstat(from) matches Some(moved) ==> {
                &&& final(self).lstat(to) matches Some(m)
                &&& Self::node(&m) == Self::node(&moved)
                &&& Self::is_dir(&m) == Self::is_dir(&moved)
                &&& Self::permissions(&m) == Self::permissions(&moved)
                &&& !Self::is_dir(&moved) ==> Self::length(&m) == Self::length(&moved)
            }),
            r is Ok ==> (old(self).lstat(from) matches Some(moved) ==> ({
                let replaced = old(self).lstat(to);
                !(replaced matches Some(t) && Self::node(&t) == Self::node(&moved))
            } ==> final(self).lstat(from) is None)),
            r is Ok ==> (old(self).lstat(from) matches Some(moved) ==> (!Self::is_dir(&moved)
                && old(self).link_target(from) is None ==> forall|at: u64|
                at < Self::length(&moved)
                    ==> #[trigger] final(self).byte(to, at) == old(self).byte(from, at))),
            forall|k: u64| #[trigger] final(self).settled(k) == old(self).settled(k),
            r matches Err(e) ==> matches!(
                Self::kind(&e),
                ErrorKind::NotFound
                    | ErrorKind::CrossesDevices
                    | ErrorKind::PermissionDenied
                    | ErrorKind::Other
            ),
    ;

    /// Copies the contents of one file to another, together with its
    /// permission bits, overwriting what `to` held.
    ///
    /// Fails where `from` leads nowhere or names a directory. After a
    /// success the number returned is the length of `to`, and `to` has the
    /// permissions of `from`. Where the node of `from` was settled, `to`
    /// holds the bytes that `from` held, and the number returned is the
    /// length that `from` had, unless the two paths led to one node. A `to`
    /// that was not there, or whose node was settled, leads to a settled
    /// node.
    fn copy(&mut self, from: &Self::Path, to: &Self::Path) -> (r: Result<u64, Self::Error>)
        ensures
            old(self).stat(from) is None ==> r is Err,
            old(self).stat(from) matches Some(m) && Self::is_dir(&m) ==> r is Err,
            r matches Ok(n) ==> (final(self).stat(to) matches Some(m) && Self::length(&m) == n
                && !Self::is_dir(&m)),
            r matches Ok(n) ==> (old(self).stat(from) matches Some(s) ==> ({
                let replaced = old(self).stat(to);
                old(self).settled(Self::node(&s)) && !(replaced matches Some(t) && Self::node(&t)
                    == Self::node(&s))
            } ==> n == Self::length(&s))),
            r matches Ok(n) ==> (old(self).stat(from) matches Some(s) ==> (old(self).settled(
                Self::node(&s),
            ) ==> forall|at: u64|
                at < n ==> #[trigger] final(self).byte(to, at) == old(self).byte(from, at))),
            r is Ok ==> {
                &&& final(self).stat(from) matches Some(source)
                &&& final(self).stat(to) matches Some(copy)
                &&& Self::permissions(&copy) == Self::permissions(&source)
            },
            r is Ok ==> (final(self).stat(to) matches Some(m) ==> ({
                let before = old(self).stat(to);
                before is None || (before matches Some(t) && old(self).settled(Self::node(&t)))
            } ==> final(self).settled(Self::node(&m)))),
            r is Ok ==> (final(self).stat(to) matches Some(m) ==> forall|k: u64|
                k != Self::node(&m) ==> #[trigger] final(self).settled(k) == old(self).settled(k)),
            r is Err ==> forall|k: u64| #[trigger] final(self).settled(k) == old(self).settled(k),
            r matches Err(e) ==> matches!(
                Self::kind(&e),
                ErrorKind::NotFound
                    | ErrorKind::PermissionDenied
                    | ErrorKind::IsADirectory
                    | ErrorKind::Other
            ),
    ;

    /// Creates a hard link: `dst` becomes another name for what `src` names.
    ///
    /// Fails where `src` names nothing. After a success `dst` names what
    /// `src` names: the two report the same metadata. Across devices a hard
    /// link is usually not possible.
    fn hard_link(&mut self, src: &Self::Path, dst: &Self::Path) -> (r: Result<(), Self::Error>)
        ensures
            old(self).lstat(src) is None ==> r is Err,
            r is Ok ==> final(self).lstat(dst) is Some,
            r is Ok ==> final(self).lstat(dst) == final(self).lstat(src),
            forall|k: u64| #[trigger] final(self).settled(k) == old(self).settled(k),
            r matches Err(e) ==> matches!(
                Self::kind(&e),
                ErrorKind::NotFound
                    | ErrorKind::PermissionDenied
                    | ErrorKind::CrossesDevices
                    | ErrorKind::Other
            ),
    ;

    /// Creates a symbolic link: `dst` becomes a symlink that points to `src`.
    ///
    /// Fails where `dst` names something already. After a success `dst`
    /// names a symlink whose target is `src` as it was given.
    fn symlink(&mut self, src: &Self::Path, dst: &Self::Path) -> (r: Result<(), Self::Error>)
        ensures
            old(self).lstat(dst) is Some ==> r is Err,
            r is Ok ==> final(self).lstat(dst) is Some,
            r is Ok ==> final(self).link_target(dst) == Some(Self::owned(src)),
            forall|k: u64| #[trigger] final(self).settled(k) == old(self).settled(k),
            r matches Err(e) ==> matches!(
                Self::kind(&e),
                ErrorKind::PermissionDenied
                    | ErrorKind::AlreadyExists
                    | ErrorKind::Other
            ),
    ;

    /// Reads a symbolic link and returns where it points to, unresolved.
    ///
    /// Fails where `path` names nothing; fails as invalid input where it
    /// names something that is no symlink.
    fn read_link(&self, path: &Self::Path) -> (r: Result<Self::PathOwned, Self::Error>)
        ensures
            r matches Ok(target) ==> self.link_target(path) == Some(target),
            self.lstat(path) is None ==> r is Err,
            self.lstat(path) is Some && self.link_target(path) is None ==> (r matches Err(e)
                && Self::kind(&e) == ErrorKind::InvalidInput),
            r matches Err(e) ==> matches!(
                Self::kind(&e),
                ErrorKind::NotFound
                    | ErrorKind::InvalidInput
                    | ErrorKind::Other
            ),
    ;

    /// Returns the canonical form of `path`, with all intermediate
    /// components normalized and all symlinks resolved.
    ///
    /// Fails where the path leads nowhere.
    fn canonicalize(&self, path: &Self::Path) -> (r: Result<Self::PathOwned, Self::Error>)
        ensures
            r matches Ok(resolved) ==> self.canonical(path) == Some(resolved),
            self.stat(path) is None ==> r is Err,
            r matches Err(e) ==> matches!(
                Self::kind(&e),
                ErrorKind::NotFound
                    | ErrorKind::NotADirectory
                    | ErrorKind::Other
            ),
    ;

    /// Creates a new, empty directory at `path` as `options` say.
    ///
    /// Unless `recursive` is set, fails as "already exists" where the path
    /// names something. With `recursive` set, missing parents are created
    /// with the same options. After a success the path leads to a directory;
    /// one that was not there before holds no entry and has `mode` as its
    /// permissions.
    fn create_dir(&mut self, path: &Self::Path, options: &DirOptions<Self::Permissions>) -> (r:
        Result<(), Self::Error>)
        ensures
            !options@.recursive && old(self).lstat(path) is Some ==> (r matches Err(e)
                && Self::kind(&e) == ErrorKind::AlreadyExists),
            r is Ok ==> (final(self).stat(path) matches Some(m) && Self::is_dir(&m)),
            r is Ok ==> (old(self).lstat(path) is None ==> {
                &&& !final(self).populated(path)
                &&& final(self).stat(path) matches Some(m)
                &&& Self::permissions(&m) == options@.mode
            }),
            forall|k: u64| #[trigger] final(self).settled(k) == old(self).settled(k),
            r matches Err(e) ==> matches!(
                Self::kind(&e),
                ErrorKind::AlreadyExists
                    | ErrorKind::PermissionDenied
                    | ErrorKind::Other
            ),
    ;

    /// Removes an existing, empty directory.
    ///
    /// Fails as "directory not empty" where the directory holds an entry, and
    /// fails where `path` names nothing. It reports "directory not empty" and
    /// "not found" only where that is so: on an empty directory nothing but
    /// a refusal or a fault of the backend stands in the way. After a
    /// success the path names nothing.
    fn remove_dir(&mut self, path: &Self::Path) -> (r: Result<(), Self::Error>)
        ensures
            old(self).populated(path) ==> (r matches Err(e) && Self::kind(&e)
                == ErrorKind::DirectoryNotEmpty),
            old(self).lstat(path) is None ==> r is Err,
            r is Ok ==> final(self).lstat(path) is None,
            forall|k: u64| #[trigger] final(self).settled(k) == old(self).settled(k),
            r matches Err(e) ==> matches!(
                Self::kind(&e),
                ErrorKind::NotFound
                    | ErrorKind::DirectoryNotEmpty
                    | ErrorKind::PermissionDenied
                    | ErrorKind::Other
            ),
            r matches Err(e) ==> (Self::kind(&e) == ErrorKind::DirectoryNotEmpty
                ==> old(self).populated(path)),
            r matches Err(e) ==> (Self::kind(&e) == ErrorKind::NotFound
                ==> old(self).lstat(path) is None),
    ;

    /// Removes a directory after removing all that it holds. Use carefully!
    ///
    /// Symlinks are not followed: a symlink is removed as a link, and what it
    /// points to stays. Fails where `path` names nothing. After a success
    /// the path names nothing.
    fn remove_dir_all(&mut self, path: &Self::Path) -> (r: Result<(), Self::Error>)
        ensures
            old(self).lstat(path) is None ==> r is Err,
            r is Ok ==> final(self).lstat(path) is None,
            forall|k: u64| #[trigger] final(self).settled(k) == old(self).settled(k),
            r matches Err(e) ==> matches!(
                Self::kind(&e),
                ErrorKind::NotFound
                    | ErrorKind::PermissionDenied
                    | ErrorKind::IsADirectory
                    | ErrorKind::DirectoryNotEmpty
                    | ErrorKind::Other
            ),
    ;

    /// Returns a listing of the entries of a directory.
    ///
    /// Succeeds only where `path` leads to a directory. Every entry that the
    /// listing will yield has `path` as its parent, and the listing yields
    /// something exactly if the directory holds an entry. Both are said of a
    /// listing that comes to an end, as one that does not has no sequence of
    /// entries to speak of; the second of a path that names the directory
    /// itself. Once the listing is there, single steps of it may still fail.
    fn read_dir(&self, path: &Self::Path) -> (r: Result<Self::Dir, Self::Error>)
        ensures
            r is Ok ==> (self.stat(path) matches Some(m) && Self::is_dir(&m)),
            r matches Ok(listing) ==> (listing.obeys_prophetic_iter_laws() ==> forall|i: int|
                0 <= i < listing.remaining().len()
                    ==> (#[trigger] listing.remaining()[i] matches Ok(entry)
                    ==> entry.parent() == path)),
            r matches Ok(listing) ==> (listing.obeys_prophetic_iter_laws()
                && self.link_target(path) is None
                ==> (self.populated(path) <==> listing.remaining().len() > 0)),
            r matches Err(e) ==> matches!(
                Self::kind(&e),
                ErrorKind::NotFound
                    | ErrorKind::NotADirectory
                    | ErrorKind::PermissionDenied
                    | ErrorKind::Other
            ),
    ;

    /// Changes the permissions of a file or a directory.
    ///
    /// Fails where `path` leads nowhere. After a success what the path leads
    /// to has the permissions `perm`.
    fn set_permissions(&mut self, path: &Self::Path, perm: Self::Permissions) -> (r: Result<
        (),
        Self::Error,
    >)
        ensures
            old(self).stat(path) is None ==> r is Err,
            r is Ok ==> (final(self).stat(path) matches Some(m) && Self::permissions(&m) == perm),
            forall|k: u64| #[trigger] final(self).settled(k) == old(self).settled(k),
            r matches Err(e) ==> matches!(
                Self::kind(&e),
                ErrorKind::NotFound
                    | ErrorKind::PermissionDenied
                    | ErrorKind::Other
            ),
    ;
}

} // verus!
