//! The contract of an open file.

use vstd::prelude::*;
use crate::error::ErrorKind;
use crate::seek::SeekFrom;

verus! {

/// The offset at which a write places its bytes in a stream of `size` bytes
/// that stands at `position`: the end of the stream in append mode, else the
/// position.
pub open spec fn write_offset(appending: bool, position: u64, size: u64) -> u64 {
    if appending {
        size
    } else {
        position
    }
}

/// A reference to an open file on the filesystem: a stream of bytes that can
/// be read, written and sought in, depending on the options it was opened
/// with.
///
/// A backend releases what the file holds when the value goes out of scope.
///
/// The model of a file is the node that it is open on, the stream as the
/// file sees it (its size and the byte at each offset below it), the offset
/// at which the file stands, and whether it was opened for appending. A
/// backend defines the model beside the operations; the contracts are stated
/// over it. An operation that may move the file takes it by exclusive
/// reference. What another file does to the same node is not in the model of
/// this one.
pub trait File {
    /// The type of everything that can go wrong while reading or writing.
    type Error;

    /// The class that an error of this file belongs to.
    spec fn kind(e: &Self::Error) -> ErrorKind;

    /// The node that the file is open on: the number by which the filesystem
    /// tells its files and directories apart, whatever paths name them. It
    /// stays the same for as long as the file is open.
    spec fn node(&self) -> u64;

    /// The offset, counted from the start of the stream, at which the file
    /// stands: where the next read takes its bytes from, and what a seek
    /// relative to the current position starts from.
    spec fn position(&self) -> u64;

    /// The size of the stream in bytes: what a seek relative to the end
    /// starts from.
    spec fn size(&self) -> u64;

    /// The byte of the stream at the offset `at`, for `at` below the size.
    spec fn byte(&self, at: u64) -> u8;

    /// Whether the file was opened in append mode.
    spec fn appending(&self) -> bool;

    /// Pulls some bytes from the file into `buf` and returns how many were
    /// read.
    ///
    /// On `Ok(n)`, `n` is at most the length of `buf`, the first `n` bytes of
    /// `buf` are the bytes of the stream from the position on, and the file
    /// has moved on by `n`. The stream is as it was. A result of 0 comes only
    /// where the file stands at or beyond the end of the stream or `buf` is
    /// empty; the caller cannot tell which from the result, and the end may
    /// not be permanent. An empty `buf` always gives `Ok(0)`.
    fn read(&mut self, buf: &mut [u8]) -> (r: Result<usize, Self::Error>)
        ensures
            final(buf)@.len() == old(buf)@.len(),
            old(buf)@.len() == 0 ==> r == Ok::<usize, Self::Error>(0),
            r matches Ok(n) ==> n <= old(buf)@.len(),
            r matches Ok(n) ==> n == 0 || old(self).position() + n <= old(self).size(),
            r matches Ok(n) ==> (n == 0
                ==> old(buf)@.len() == 0 || old(self).position() >= old(self).size()),
            r matches Ok(n) ==> forall|i: int|
                0 <= i < n ==> #[trigger] final(buf)@[i] == old(self).byte(
                    (old(self).position() + i) as u64,
                ),
            r matches Ok(n) ==> final(self).position() == old(self).position() + n,
            r is Ok ==> final(self).size() == old(self).size(),
            r is Ok ==> forall|at: u64|
                at < old(self).size() ==> #[trigger] final(self).byte(at) == old(self).byte(at),
            final(self).appending() == old(self).appending(),
            final(self).node() == old(self).node(),
    ;

    /// Writes bytes from `buf` into the file and returns how many were
    /// written, in one attempt.
    ///
    /// On `Ok(n)`, `n` is at most the length of `buf`. A short write is no
    /// error: the caller goes on with the rest. The first `n` bytes of `buf`
    /// are placed at the position, or in append mode at the end of the
    /// stream, wherever the file stood; the stream grows as far as they reach
    /// beyond its end, and is otherwise as it was. Out of append mode the
    /// file has moved on by `n`. What a write leaves that starts beyond the
    /// end of the stream is up to the backend.
    fn write(&mut self, buf: &[u8]) -> (r: Result<usize, Self::Error>)
        ensures
            r matches Ok(n) ==> n <= buf@.len(),
            r matches Ok(n) ==> ({
                let at = write_offset(old(self).appending(), old(self).position(), old(self).size());
                at <= old(self).size() ==> {
                    &&& final(self).size() == if at + n <= old(self).size() {
                        old(self).size() as int
                    } else {
                        at + n
                    }
                    &&& forall|o: u64|
                        o < final(self).size() ==> #[trigger] final(self).byte(o) == if at <= o < at
                            + n {
                            buf@[o - at]
                        } else {
                            old(self).byte(o)
                        }
                }
            }),
            r matches Ok(n) ==> (!old(self).appending()
                ==> final(self).position() == old(self).position() + n),
            final(self).appending() == old(self).appending(),
            final(self).node() == old(self).node(),
    ;

    /// Flushes the file, so that all buffered bytes reach their destination.
    /// Fails if not all of them could be delivered. A flush that succeeds
    /// leaves the stream and the position as they were.
    fn flush(&mut self) -> (r: Result<(), Self::Error>)
        ensures
            r is Ok ==> final(self).size() == old(self).size(),
            r is Ok ==> forall|at: u64|
                at < old(self).size() ==> #[trigger] final(self).byte(at) == old(self).byte(at),
            r is Ok ==> final(self).position() == old(self).position(),
            final(self).appending() == old(self).appending(),
            final(self).node() == old(self).node(),
    ;

    /// Seeks to the offset that `pos` asks for and returns the new position,
    /// counted from the start of the stream.
    ///
    /// A target before byte 0 is rejected as invalid input. A target beyond
    /// the end of the stream is in order; what follows from it is up to the
    /// backend. The stream itself is as it was.
    fn seek(&mut self, pos: SeekFrom) -> (r: Result<u64, Self::Error>)
        ensures
            pos.target(old(self).position() as int, old(self).size() as int) < 0
                ==> (r matches Err(e) && Self::kind(&e) == ErrorKind::InvalidInput),
            r matches Ok(n) ==> n == pos.target(
                old(self).position() as int,
                old(self).size() as int,
            ),
            r matches Ok(n) ==> final(self).position() == n,
            r is Ok ==> final(self).size() == old(self).size(),
            r is Ok ==> forall|at: u64|
                at < old(self).size() ==> #[trigger] final(self).byte(at) == old(self).byte(at),
            final(self).appending() == old(self).appending(),
            final(self).node() == old(self).node(),
    ;
}

} // verus!
