//! Where to seek to within a byte stream.

use vstd::prelude::*;

verus! {

/// A target for a seek: absolute, relative to the end, or relative to the
/// current position.
///
/// The value carries no behaviour. [`File::seek`](crate::File::seek) consumes
/// it, and rejects a target before byte 0.
#[derive(Copy, PartialEq, Eq, Structural, PartialOrd, Ord, Clone, Debug)]
pub enum SeekFrom {
    /// Set the offset to the provided number of bytes.
    Start(u64),
    /// Set the offset to the size of the stream plus the given number of
    /// bytes. A target beyond the end is in order, one before byte 0 is not.
    End(i64),
    /// Set the offset to the current position plus the given number of
    /// bytes. A target beyond the end is in order, one before byte 0 is not.
    Current(i64),
}

impl SeekFrom {
    /// The absolute offset that this value asks for in a stream that stands
    /// at `position` and ends at `end`. It may lie before byte 0 or beyond
    /// what a `u64` holds; a seek to such a target cannot succeed.
    pub open spec fn target(self, position: int, end: int) -> int {
        match self {
            SeekFrom::Start(offset) => offset as int,
            SeekFrom::End(offset) => end + offset,
            SeekFrom::Current(offset) => position + offset,
        }
    }
}

} // verus!
