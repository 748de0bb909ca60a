//! The units the scan works in.

use vstd::prelude::*;

verus! {

/// Bytes in one gigabyte, the granularity at which the scan samples its source.
pub const GB_SIZE: u64 = 0x4000_0000;

/// Sector size used when the caller names none.
pub const DEFAULT_SECTOR_SIZE: usize = 512;

/// The gigabyte that holds the byte at `offset`.
pub open spec fn gigabyte_of(offset: u64) -> u64 {
    offset / GB_SIZE
}

/// How far `offset` lies before the next gigabyte boundary. On a boundary that is a whole
/// gigabyte: the boundary looked for is always ahead.
pub open spec fn distance_to_next_gigabyte(offset: u64) -> u64 {
    (GB_SIZE - offset % GB_SIZE) as u64
}

/// The offset at which the gigabyte after that of `offset` starts: the first gigabyte
/// boundary that lies beyond `offset`. It may lie beyond what a `u64` counts.
pub open spec fn next_gigabyte_start(offset: u64) -> int {
    (offset / GB_SIZE + 1) * GB_SIZE
}

/// The next gigabyte starts where the distance to the next boundary ends.
pub proof fn lemma_next_gigabyte_start(offset: u64)
    ensures
        next_gigabyte_start(offset) == offset + distance_to_next_gigabyte(offset),
        0 < distance_to_next_gigabyte(offset) <= GB_SIZE,
        next_gigabyte_start(offset) % (GB_SIZE as int) == 0,
        next_gigabyte_start(offset) / (GB_SIZE as int) == gigabyte_of(offset) + 1,
{
}

} // verus!
