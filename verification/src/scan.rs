//! The scan as a conversation: what happened at the source, and what to do about it.

use crate::device::DeviceState;
use crate::errors::Error;
use crate::globals::{gigabyte_of, next_gigabyte_start};
use crate::seek::SeekTarget;
use vstd::prelude::*;

verus! {

/// How a scan ends when nothing fails.
#[derive(Clone, Copy, Debug, PartialEq, Eq, Structural)]
pub enum Outcome {
    /// A sampled sector held data; `gigabyte` is the gigabyte it was sampled in.
    Found { gigabyte: u64 },
    /// Every sampled sector was blank, up to the end of the source.
    AllZero,
}

/// What the caller reports to the scan.
#[derive(Debug)]
pub enum ScanEvent<'a> {
    /// The scan is to begin.
    Started,
    /// The progress display could not be flushed; the read that was to follow was not made.
    FlushFailed(std::io::Error),
    /// A read into the sector buffer returned `result`; `buffer` is the whole buffer as it
    /// stands after the read, whatever part of it the read filled.
    SectorRead { result: Result<usize, std::io::Error>, buffer: &'a [u8] },
    /// A seek returned `0`: the offset at which the source now stands, or why it did not move.
    Moved(Result<u64, std::io::Error>),
}

/// A [`ScanEvent`] as a plain value.
pub enum ScanInput {
    Started,
    FlushFailed(std::io::Error),
    SectorRead { result: Result<usize, std::io::Error>, buffer: Seq<u8> },
    Moved(Result<u64, std::io::Error>),
}

impl<'a> View for ScanEvent<'a> {
    type V = ScanInput;

    open spec fn view(&self) -> ScanInput {
        match *self {
            ScanEvent::Started => ScanInput::Started,
            ScanEvent::FlushFailed(e) => ScanInput::FlushFailed(e),
            ScanEvent::SectorRead { result, buffer } => ScanInput::SectorRead {
                result,
                buffer: buffer@,
            },
            ScanEvent::Moved(result) => ScanInput::Moved(result),
        }
    }
}

/// What the scan asks of the caller next.
#[derive(Clone, Copy, Debug, PartialEq, Eq)]
pub enum ScanAction {
    /// Read up to `len` bytes into the sector buffer and report
    /// [`ScanEvent::SectorRead`]. Before the read: if `banner` is `Some(g)`, announce that
    /// the search starts in gigabyte `g`; if `progress` is `Some(g)`, show that gigabyte `g`
    /// is being read, on one line that each such display overwrites, and flush it, reporting
    /// [`ScanEvent::FlushFailed`] in place of the read if that fails.
    Read { len: usize, banner: Option<u64>, progress: Option<u64> },
    /// Move the source as `0` says and report [`ScanEvent::Moved`].
    Seek(SeekTarget),
    /// The scan is over.
    Finish(Outcome),
}

/// Whether any byte of `buffer` is other than zero.
pub open spec fn holds_data(buffer: Seq<u8>) -> bool {
    exists|i: int| 0 <= i < buffer.len() && #[trigger] buffer[i] != 0
}

impl DeviceState {
    /// The read that samples the sector at the current offset. The first read of a scan
    /// carries the banner; every read carries the progress display if that is switched on.
    pub open spec fn read_request(self, first: bool) -> ScanAction {
        ScanAction::Read {
            len: self.sector_size,
            banner: if first {
                Some(gigabyte_of(self.current))
            } else {
                None
            },
            progress: if self.status {
                Some(gigabyte_of(self.current))
            } else {
                None
            },
        }
    }

    /// What the scan makes of a sampled sector: data anywhere in the buffer ends it with the
    /// gigabyte it stands in; a blank buffer after a read that came up short ends it at the
    /// end of the source; a blank full sector sends it on to the start of the next gigabyte,
    /// wherever the read has left the source. Past the last gigabyte whose start a `u64` can
    /// name there is nothing left to sample, and the scan ends as at the end of the source.
    pub open spec fn judge(self, nbytes: usize, buffer: Seq<u8>) -> ScanAction {
        if holds_data(buffer) {
            ScanAction::Finish(Outcome::Found { gigabyte: gigabyte_of(self.current) })
        } else if nbytes != self.sector_size {
            ScanAction::Finish(Outcome::AllZero)
        } else if next_gigabyte_start(self.current) <= u64::MAX {
            ScanAction::Seek(SeekTarget::Start(next_gigabyte_start(self.current) as u64))
        } else {
            ScanAction::Finish(Outcome::AllZero)
        }
    }

    /// The device after `input`: it keeps its settings, and stands where the last
    /// successful seek left the source.
    pub open spec fn after(self, input: ScanInput) -> DeviceState {
        match input {
            ScanInput::Moved(Ok(position)) => self.at(position),
            _ => self,
        }
    }

    /// What the scan answers to `input`. Any failure that is reported ends the scan with the
    /// error of its kind.
    pub open spec fn answer(self, input: ScanInput) -> Result<ScanAction, Error> {
        match input {
            ScanInput::Started => Ok(self.read_request(true)),
            ScanInput::FlushFailed(e) => Err(Error::FlushError(e)),
            ScanInput::SectorRead { result: Ok(nbytes), buffer } => Ok(self.judge(nbytes, buffer)),
            ScanInput::SectorRead { result: Err(e), .. } => Err(Error::ReadError(e)),
            ScanInput::Moved(Ok(position)) => Ok(self.at(position).read_request(false)),
            ScanInput::Moved(Err(e)) => Err(Error::SeekFailed(e)),
        }
    }
}

/// Looks through the whole of `buffer` for a byte that is not zero.
pub fn has_data(buffer: &[u8]) -> (found: bool)
    ensures
        found == holds_data(buffer@),
{
    let mut i: usize = 0;
    while i < buffer.len()
        invariant
            i <= buffer.len(),
            forall|j: int| 0 <= j < i ==> buffer@[j] == 0,
        decreases buffer.len() - i,
    {
        if buffer[i] != 0 {
            return true;
        }
        i = i + 1;
    }
    false
}

} // verus!
