//! Measuring a source without losing one's place in it.

use crate::device::Device;
use crate::errors::Error;
use crate::seek::SeekTarget;
use vstd::prelude::*;

verus! {

/// How far the measuring of a source has come. It takes three seeks: one that reports where
/// the source stands, one to its end, and one back.
#[derive(Clone, Copy, Debug, PartialEq, Eq, Structural)]
pub enum SizeQuery {
    /// Finding out where the source stands.
    Locate,
    /// Finding out where the source ends; it stood at `origin`.
    Measure { origin: u64 },
    /// Sending the source back to `origin`; it is `size` bytes long.
    Rewind { origin: u64, size: u64 },
    /// Over: the source is `size` bytes long and back where it stood.
    Done { size: u64 },
}

/// What a [`SizeQuery`] asks of the caller next.
#[derive(Clone, Copy, Debug, PartialEq, Eq, Structural)]
pub enum SizeAction {
    /// Move the source as `0` says and hand the outcome to [`Device::get_size`].
    Seek(SeekTarget),
    /// The measuring is over; the source is `0` bytes long.
    Finish(u64),
}

impl SizeQuery {
    /// What this stage of the measuring asks for.
    pub open spec fn asks(self) -> SizeAction {
        match self {
            SizeQuery::Locate => SizeAction::Seek(SeekTarget::Current(0)),
            SizeQuery::Measure { .. } => SizeAction::Seek(SeekTarget::End(0)),
            SizeQuery::Rewind { origin, .. } => SizeAction::Seek(SeekTarget::Start(origin)),
            SizeQuery::Done { size } => SizeAction::Finish(size),
        }
    }

    /// The stage that follows once the seek of this stage has returned `moved`. A seek that
    /// fails ends the measuring: the one that leads back as [`Error::RewindFailed`], the two
    /// before it as [`Error::SeekFailed`]. Nothing follows the last stage.
    pub open spec fn answered(self, moved: Result<u64, std::io::Error>) -> Result<SizeQuery, Error> {
        match self {
            SizeQuery::Locate => match moved {
                Ok(position) => Ok(SizeQuery::Measure { origin: position }),
                Err(e) => Err(Error::SeekFailed(e)),
            },
            SizeQuery::Measure { origin } => match moved {
                Ok(position) => Ok(SizeQuery::Rewind { origin, size: position }),
                Err(e) => Err(Error::SeekFailed(e)),
            },
            SizeQuery::Rewind { size, .. } => match moved {
                Ok(_) => Ok(SizeQuery::Done { size }),
                Err(e) => Err(Error::RewindFailed(e)),
            },
            SizeQuery::Done { size } => Ok(SizeQuery::Done { size }),
        }
    }

    /// One stage of the measuring played against a source of `len` bytes that stands at
    /// `position` and never fails: the stage that follows, and where the source then stands.
    pub open spec fn played(self, position: u64, len: u64) -> (SizeQuery, u64) {
        match self.asks() {
            SizeAction::Seek(target) => {
                let landed = target.lands(position as int, len as int) as u64;
                (self.answered(Ok(landed))->Ok_0, landed)
            },
            SizeAction::Finish(_) => (self, position),
        }
    }

    /// What to do at this stage.
    pub fn request(&self) -> (action: SizeAction)
        ensures
            action == self.asks(),
    {
        match *self {
            SizeQuery::Locate => SizeAction::Seek(SeekTarget::Current(0)),
            SizeQuery::Measure { .. } => SizeAction::Seek(SeekTarget::End(0)),
            SizeQuery::Rewind { origin, .. } => SizeAction::Seek(SeekTarget::Start(origin)),
            SizeQuery::Done { size } => SizeAction::Finish(size),
        }
    }
}

impl Device {
    /// Takes the measuring of the source one stage further.
    ///
    /// The caller starts at [`SizeQuery::Locate`], makes the seek that
    /// [`SizeQuery::request`] names, and passes what the seek returned as `moved`; the
    /// result is the next stage, until `request` yields [`SizeAction::Finish`] with the
    /// size. The device itself is not touched: the source ends where it began.
    pub fn get_size(&self, query: SizeQuery, moved: Result<u64, std::io::Error>) -> (next: Result<
        SizeQuery,
        Error,
    >)
        ensures
            next == query.answered(moved),
    {
        match query {
            SizeQuery::Locate => match moved {
                Ok(position) => Ok(SizeQuery::Measure { origin: position }),
                Err(e) => Err(Error::SeekFailed(e)),
            },
            SizeQuery::Measure { origin } => match moved {
                Ok(position) => Ok(SizeQuery::Rewind { origin, size: position }),
                Err(e) => Err(Error::SeekFailed(e)),
            },
            SizeQuery::Rewind { size, .. } => match moved {
                Ok(_) => Ok(SizeQuery::Done { size }),
                Err(e) => Err(Error::RewindFailed(e)),
            },
            SizeQuery::Done { size } => Ok(SizeQuery::Done { size }),
        }
    }
}

/// Measuring a source leaves it where it stood, and yields its length: wherever a source of
/// `len` bytes stands, three stages played against it end with the size `len` and the source
/// at the offset it had before.
pub proof fn lemma_get_size_keeps_position(position: u64, len: u64)
    ensures
        ({
            let (first, p1) = SizeQuery::Locate.played(position, len);
            let (second, p2) = first.played(p1, len);
            let (third, p3) = second.played(p2, len);
            &&& third == SizeQuery::Done { size: len }
            &&& third.asks() == SizeAction::Finish(len)
            &&& p3 == position
        }),
{
}

} // verus!
