//! Requests to move a source.

use vstd::prelude::*;

verus! {

/// Where a source is to be moved, counted as `std::io::SeekFrom` counts.
#[derive(Clone, Copy, Debug, PartialEq, Eq, Structural)]
pub enum SeekTarget {
    /// So many bytes after the start of the source.
    Start(u64),
    /// So many bytes after the end of the source.
    End(i64),
    /// So many bytes after the offset at which the source stands.
    Current(i64),
}

impl SeekTarget {
    /// The offset at which a source of `len` bytes stands after this seek, if it stood at
    /// `position` before.
    pub open spec fn lands(self, position: int, len: int) -> int {
        match self {
            SeekTarget::Start(offset) => offset as int,
            SeekTarget::End(delta) => len + delta,
            SeekTarget::Current(delta) => position + delta,
        }
    }
}

} // verus!
