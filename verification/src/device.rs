//! The device being scanned, as the scan sees it.

use crate::errors::Error;
use crate::globals::{DEFAULT_SECTOR_SIZE, GB_SIZE};
use crate::scan::{has_data, Outcome, ScanAction, ScanEvent};
use crate::seek::SeekTarget;
use crate::size::size_of;
use vstd::prelude::*;

verus! {

/// A [`Device`] as a plain value.
pub struct DeviceState {
    /// The offset at which the source stood after the last seek: where the next sector is
    /// sampled.
    pub current: u64,
    /// Whether progress is shown during the scan.
    pub status: bool,
    /// Bytes in a sector, and in the buffer that a sector is read into.
    pub sector_size: usize,
}

impl DeviceState {
    /// A sector holds at least one byte.
    pub open spec fn wf(self) -> bool {
        self.sector_size > 0
    }

    /// The same device with its source standing at `position`.
    pub open spec fn at(self, position: u64) -> DeviceState {
        DeviceState { current: position, ..self }
    }
}

/// What the scan knows about its source: where the next sector will be read, how large a
/// sector is, and whether progress is shown. The source itself stays with the caller, who
/// reads and seeks on the device's behalf and reports back.
pub struct Device {
    current: u64,
    status: bool,
    sector_size: usize,
}

impl View for Device {
    type V = DeviceState;

    closed spec fn view(&self) -> DeviceState {
        DeviceState { current: self.current, status: self.status, sector_size: self.sector_size }
    }
}

impl Device {
    #[verifier::type_invariant]
    spec fn sector_not_empty(self) -> bool {
        self.sector_size > 0
    }

    /// Sets up a device for a source that has just been opened and stands at offset 0.
    ///
    /// `sector_size` defaults to [`DEFAULT_SECTOR_SIZE`] and `status` to off. When `seek`
    /// is given it is read as a size, and the second component of the result is the seek
    /// that takes the source there; its outcome goes to [`Device::reposition`]. A `seek`
    /// that is no size is a [`Error::ParseError`].
    pub fn new(sector_size: Option<usize>, seek: Option<String>, status: Option<bool>) -> (made:
        Result<(Device, Option<SeekTarget>), Error>)
        requires
            sector_size != Some(0usize),
        ensures
            match made {
                Ok((device, start)) => {
                    &&& device@ == DeviceState {
                        current: 0,
                        status: status.unwrap_or(false),
                        sector_size: sector_size.unwrap_or(DEFAULT_SECTOR_SIZE),
                    }
                    &&& device@.wf()
                    &&& match seek {
                        Some(text) => size_of(text@) is Some && start == Some(
                            SeekTarget::Start(size_of(text@)->0),
                        ),
                        None => start is None,
                    }
                },
                Err(e) => e == Error::ParseError && seek is Some && size_of(seek->0@) is None,
            },
    {
        let sector_size = match sector_size {
            Some(bytes) => bytes,
            None => DEFAULT_SECTOR_SIZE,
        };
        let status = match status {
            Some(shown) => shown,
            None => false,
        };
        let start = match seek {
            Some(text) => match Device::parse_size(text) {
                Ok(offset) => Some(SeekTarget::Start(offset)),
                Err(e) => {
                    return Err(e);
                },
            },
            None => None,
        };
        Ok((Device { current: 0, status, sector_size }, start))
    }

    /// Takes note of the outcome of a seek made outside a scan: the device now stands where
    /// the source reports to stand. A seek that failed is a [`Error::SeekFailed`] and
    /// leaves the device as it was.
    pub fn reposition(&mut self, moved: Result<u64, std::io::Error>) -> (noted: Result<(), Error>)
        ensures
            match moved {
                Ok(position) => noted is Ok && final(self)@ == old(self)@.at(position),
                Err(e) => noted == Err::<(), Error>(Error::SeekFailed(e)) && final(self)@ == old(
                    self,
                )@,
            },
    {
        proof {
            use_type_invariant(&*self);
        }
        match moved {
            Ok(position) => {
                self.current = position;
                Ok(())
            },
            Err(e) => Err(Error::SeekFailed(e)),
        }
    }

    /// Takes the scan one step further: `event` is what happened at the source, the result
    /// is what to do next.
    ///
    /// The caller reports [`ScanEvent::Started`] once, then carries out each
    /// [`ScanAction`] and reports how it went, until the answer is
    /// [`ScanAction::Finish`] or an error. A sector is sampled at the current offset; if the
    /// buffer holds a byte other than zero the scan ends there, if the read came up short
    /// the source is exhausted, and otherwise the source is sent to the gigabyte boundary
    /// that lies the distance `GB_SIZE - current % GB_SIZE` beyond the current offset. The
    /// seek names that boundary from the start of the source, so it lands there however
    /// far the read has moved the source. The device then stands where the source reports
    /// to stand after the seek.
    pub fn find_first_non_zero(&mut self, event: ScanEvent<'_>) -> (answer: Result<
        ScanAction,
        Error,
    >)
        ensures
            answer == old(self)@.answer(event@),
            final(self)@ == old(self)@.after(event@),
    {
        proof {
            use_type_invariant(&*self);
        }
        match event {
            ScanEvent::Started => Ok(self.read_action(true)),
            ScanEvent::FlushFailed(e) => Err(Error::FlushError(e)),
            ScanEvent::SectorRead { result, buffer } => match result {
                Ok(nbytes) => {
                    if has_data(buffer) {
                        Ok(ScanAction::Finish(Outcome::Found { gigabyte: self.current / GB_SIZE }))
                    } else if nbytes != self.sector_size {
                        Ok(ScanAction::Finish(Outcome::AllZero))
                    } else {
                        let distance = GB_SIZE - self.current % GB_SIZE;
                        match self.current.checked_add(distance) {
                            Some(boundary) => Ok(ScanAction::Seek(SeekTarget::Start(boundary))),
                            None => Ok(ScanAction::Finish(Outcome::AllZero)),
                        }
                    }
                },
                Err(e) => Err(Error::ReadError(e)),
            },
            ScanEvent::Moved(result) => match result {
                Ok(position) => {
                    self.current = position;
                    Ok(self.read_action(false))
                },
                Err(e) => Err(Error::SeekFailed(e)),
            },
        }
    }

    /// The read of the sector at the current offset.
    fn read_action(&self, first: bool) -> (action: ScanAction)
        ensures
            action == self@.read_request(first),
    {
        let gigabyte = self.current / GB_SIZE;
        ScanAction::Read {
            len: self.sector_size,
            banner: if first {
                Some(gigabyte)
            } else {
                None
            },
            progress: if self.status {
                Some(gigabyte)
            } else {
                None
            },
        }
    }

    /// The offset at which the next sector is sampled.
    pub fn current(&self) -> (offset: u64)
        ensures
            offset == self@.current,
    {
        self.current
    }

    /// Bytes in a sector.
    pub fn sector_size(&self) -> (bytes: usize)
        ensures
            bytes == self@.sector_size,
            bytes > 0,
    {
        proof {
            use_type_invariant(self);
        }
        self.sector_size
    }

    /// Whether progress is shown during the scan.
    pub fn status(&self) -> (shown: bool)
        ensures
            shown == self@.status,
    {
        self.status
    }
}

} // verus!
