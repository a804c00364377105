//! What follows from the contracts of several operations taken together.
//!
//! Each law takes the values that a run of the operations produced and the
//! fact that every call met its contract, and concludes what the run looks
//! like. A filesystem or file taken by `&mut` stands for one call that
//! changes it: its value before the call and its value after it. Where one
//! call follows another, the value before the second is the value after the
//! first.

use vstd::prelude::*;
use vstd::std_specs::iter::IteratorSpec;
use crate::dir::DirEntry;
use crate::error::ErrorKind;
use crate::file::File;
use crate::filesystem::Fs;
use crate::options::{DirOptions, OpenOptions};
use crate::seek::SeekFrom;

verus! {

/// A directory that still holds an entry is not removed: `remove_dir` fails
/// on it as "directory not empty", and the path goes on naming it if it did.
pub proof fn populated_dir_is_not_removed<F: Fs>(
    fs: &mut F,
    path: &F::Path,
    removed: Result<(), F::Error>,
)
    requires
        call_ensures(F::remove_dir, (fs, path), removed),
        mut_ref_current(fs).populated(path),
    ensures
        removed matches Err(e) && F::kind(&e) == ErrorKind::DirectoryNotEmpty,
{
}

/// On an empty directory `remove_dir` can fail only because the backend
/// refuses or breaks down: never as "not found" or "directory not empty".
pub proof fn empty_dir_is_removed_unless_refused<F: Fs>(
    fs: &mut F,
    path: &F::Path,
    removed: Result<(), F::Error>,
)
    requires
        call_ensures(F::remove_dir, (fs, path), removed),
        mut_ref_current(fs).lstat(path) is Some,
        !mut_ref_current(fs).populated(path),
    ensures
        removed matches Err(e) ==> F::kind(&e) == ErrorKind::PermissionDenied || F::kind(&e)
            == ErrorKind::Other,
{
}

/// A directory that was removed is not found afterwards: once `remove_dir`
/// has succeeded on a path, `metadata` on that path fails as "not found".
pub proof fn removed_dir_is_not_found<F: Fs>(
    fs: &mut F,
    path: &F::Path,
    removed: Result<(), F::Error>,
    looked: Result<F::Metadata, F::Error>,
)
    requires
        call_ensures(F::remove_dir, (fs, path), removed),
        removed is Ok,
        call_ensures(F::metadata, (&mut_ref_future(fs), path), looked),
    ensures
        looked matches Err(e) && F::kind(&e) == ErrorKind::NotFound,
{
    mut_ref_future(fs).resolved_path_names_something(path);
}

/// What `copy` returns is what `metadata` then reports: after a successful
/// copy the metadata of `to` has the permissions that the metadata of `from`
/// has, and the length that the copy returned. The length is said of a `to`
/// that was not there or whose node was settled: of a node that a file has
/// been opened on for writing no query says the length.
pub proof fn copy_is_reported<F: Fs>(
    fs: &mut F,
    from: &F::Path,
    to: &F::Path,
    copied: Result<u64, F::Error>,
    source: Result<F::Metadata, F::Error>,
    copy: Result<F::Metadata, F::Error>,
)
    requires
        call_ensures(F::copy, (fs, from, to), copied),
        copied is Ok,
        call_ensures(F::metadata, (&mut_ref_future(fs), from), source),
        call_ensures(F::metadata, (&mut_ref_future(fs), to), copy),
    ensures
        copy matches Ok(c) ==> (source matches Ok(s) ==> F::permissions(&c) == F::permissions(&s)),
        copy matches Ok(c) ==> ({
            let before = mut_ref_current(fs).stat(to);
            before is None || (before matches Some(t) && mut_ref_current(fs).settled(F::node(&t)))
        } ==> F::length(&c) == copied->Ok_0),
{
}

/// With `create_new` set nothing that exists is opened: the open fails as
/// "already exists" wherever the path names something, a dangling symlink
/// included, whatever the other options are.
pub proof fn create_new_opens_nothing_that_exists<F: Fs>(
    fs: &mut F,
    path: &F::Path,
    options: &OpenOptions<F::Permissions>,
    opened: Result<F::File, F::Error>,
)
    requires
        call_ensures(F::open, (fs, path, options), opened),
        options@.create_new,
        mut_ref_current(fs).lstat(path) is Some || mut_ref_current(fs).stat(path) is Some,
    ensures
        opened matches Err(e) && F::kind(&e) == ErrorKind::AlreadyExists,
{
    mut_ref_current(fs).resolved_path_names_something(path);
}

/// A file that an open has created is found: where the path named nothing
/// and the open succeeded, `metadata` on the path does not fail as "not
/// found", and what it reports is of the node that the file is open on, is
/// no directory, and has `mode` as its permissions.
pub proof fn created_file_is_found<F: Fs>(
    fs: &mut F,
    path: &F::Path,
    options: &OpenOptions<F::Permissions>,
    opened: Result<F::File, F::Error>,
    looked: Result<F::Metadata, F::Error>,
)
    requires
        mut_ref_current(fs).lstat(path) is None,
        call_ensures(F::open, (fs, path, options), opened),
        opened is Ok,
        call_ensures(F::metadata, (&mut_ref_future(fs), path), looked),
    ensures
        options@.creates() && options@.writes(),
        looked matches Err(e) ==> F::kind(&e) != ErrorKind::NotFound,
        looked matches Ok(m) ==> F::node(&m) == opened->Ok_0.node() && !F::is_dir(&m)
            && F::permissions(&m) == options@.mode,
{
    mut_ref_current(fs).resolved_path_names_something(path);
}

/// A file that was written and then renamed is found under its new name
/// only: a path that named nothing is opened, bytes are written to the file,
/// and the path is renamed onto another that named something. If each step
/// succeeds, `metadata` on the old path fails as "not found", the new path
/// names the node that the file is open on, and the file holds the bytes
/// that were written and no others.
pub proof fn written_file_is_renamed<F: Fs>(
    creating: &mut F,
    writing: &mut F::File,
    renaming: &mut F,
    from: &F::Path,
    to: &F::Path,
    options: &OpenOptions<F::Permissions>,
    bytes: &[u8],
    opened: Result<F::File, F::Error>,
    written: Result<usize, F::Error>,
    renamed: Result<(), F::Error>,
    looked: Result<F::Metadata, F::Error>,
)
    requires
        mut_ref_current(creating).lstat(from) is None,
        mut_ref_current(creating).lstat(to) is Some,
        call_ensures(F::open, (creating, from, options), opened),
        opened is Ok,
        mut_ref_current(writing) == opened->Ok_0,
        call_ensures(<F::File as File>::write, (writing, bytes), written),
        written is Ok,
        mut_ref_current(renaming) == mut_ref_future(creating),
        call_ensures(F::rename, (renaming, from, to), renamed),
        renamed is Ok,
        call_ensures(F::metadata, (&mut_ref_future(renaming), from), looked),
    ensures
        looked matches Err(e) && F::kind(&e) == ErrorKind::NotFound,
        mut_ref_future(renaming).lstat(to) matches Some(m) && F::node(&m)
            == mut_ref_future(writing).node(),
        mut_ref_future(writing).size() == written->Ok_0,
        forall|i: int|
            0 <= i < written->Ok_0 ==> #[trigger] mut_ref_future(writing).byte(i as u64)
                == bytes@[i],
{
    let before = mut_ref_current(creating);
    let between = mut_ref_future(creating);
    let after = mut_ref_future(renaming);
    let file = opened->Ok_0;
    before.resolved_path_names_something(from);
    between.resolved_path_names_something(from);
    after.resolved_path_names_something(from);
    assert(between.lstat(from) matches Some(m) && F::node(&m) == file.node());
    assert(between.lstat(to) matches Some(m) && F::node(&m) != file.node());
    assert(after.lstat(from) is None);
    assert(file.size() == 0);
    let holds = mut_ref_future(writing);
    assert forall|i: int| 0 <= i < written->Ok_0 implies #[trigger] holds.byte(i as u64)
        == bytes@[i] by {
        assert((i as u64) < holds.size());
    }
}

/// A directory that was just made holds nothing: where `create_dir` has
/// succeeded on a path that named nothing, `remove_dir` on that path can
/// fail only because the backend refuses or breaks down.
pub proof fn new_dir_holds_nothing<F: Fs>(
    making: &mut F,
    removing: &mut F,
    path: &F::Path,
    options: &DirOptions<F::Permissions>,
    made: Result<(), F::Error>,
    removed: Result<(), F::Error>,
)
    requires
        mut_ref_current(making).lstat(path) is None,
        call_ensures(F::create_dir, (making, path, options), made),
        made is Ok,
        mut_ref_current(removing) == mut_ref_future(making),
        call_ensures(F::remove_dir, (removing, path), removed),
    ensures
        removed matches Err(e) ==> F::kind(&e) == ErrorKind::PermissionDenied || F::kind(&e)
            == ErrorKind::Other,
{
    mut_ref_future(making).resolved_path_names_something(path);
}

/// The path of a listed entry is the listed directory joined with the name
/// of the entry: for every entry that a listing of `dir` yields, what `path`
/// returns is `dir` joined with what `file_name` returns. The listing is one
/// that comes to an end, and `entry` is the item that its step `i` yields.
pub proof fn listed_entry_path<F: Fs>(
    fs: &F,
    dir: &F::Path,
    listed: Result<F::Dir, F::Error>,
    i: int,
    entry: F::DirEntry,
    full: <F::DirEntry as DirEntry>::PathOwned,
    name: &F::Path,
)
    requires
        call_ensures(F::read_dir, (fs, dir), listed),
        listed matches Ok(listing) && {
            &&& listing.obeys_prophetic_iter_laws()
            &&& 0 <= i < listing.remaining().len()
            &&& listing.remaining()[i] == Ok::<F::DirEntry, F::Error>(entry)
        },
        call_ensures(<F::DirEntry as DirEntry>::path, (&entry,), full),
        call_ensures(<F::DirEntry as DirEntry>::file_name, (&entry,), name),
    ensures
        full == <F::DirEntry as DirEntry>::join(dir, name),
{
}

/// What was written is read back: after a write out of append mode that
/// starts within the stream, a seek back to where the write started, and a
/// read, the bytes read are the bytes written, as far as both reach.
pub proof fn written_bytes_are_read_back<F: File>(
    writing: &mut F,
    seeking: &mut F,
    reading: &mut F,
    bytes: &[u8],
    out: &mut [u8],
    written: Result<usize, F::Error>,
    sought: Result<u64, F::Error>,
    read: Result<usize, F::Error>,
)
    requires
        !mut_ref_current(writing).appending(),
        mut_ref_current(writing).position() <= mut_ref_current(writing).size(),
        call_ensures(F::write, (writing, bytes), written),
        mut_ref_current(seeking) == mut_ref_future(writing),
        call_ensures(
            F::seek,
            (seeking, SeekFrom::Start(mut_ref_current(writing).position())),
            sought,
        ),
        mut_ref_current(reading) == mut_ref_future(seeking),
        call_ensures(F::read, (reading, out), read),
        written is Ok,
        sought is Ok,
        read is Ok,
    ensures
        sought->Ok_0 == mut_ref_current(writing).position(),
        forall|i: int|
            0 <= i < written->Ok_0 && i < read->Ok_0 ==> #[trigger] final(out)@[i] == bytes@[i],
{
    let start = mut_ref_current(writing).position();
    let got = final(out)@;
    assert forall|i: int| 0 <= i < written->Ok_0 && i < read->Ok_0 implies #[trigger] got[i]
        == bytes@[i] by {
        let at = (start + i) as u64;
        assert(mut_ref_future(seeking).byte(at) == mut_ref_future(writing).byte(at));
    }
}

} // verus!
