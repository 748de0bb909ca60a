//! Whole scans: the steps of a scan played against a source, and what they add up to.

use crate::device::DeviceState;
use crate::errors::Error;
use crate::globals::{gigabyte_of, next_gigabyte_start, GB_SIZE};
use crate::scan::{holds_data, Outcome, ScanAction, ScanInput};
use crate::seek::SeekTarget;
use vstd::prelude::*;

verus! {

/// A source that never fails: the bytes it holds, and the offset at which it stands. A read
/// yields as many bytes as are asked for, or as are left, and moves the source past them; a
/// seek moves it as [`SeekTarget::lands`] says.
pub struct Source {
    pub data: Seq<u8>,
    pub position: int,
}

impl Source {
    /// How many bytes a read yields that has room for `room`.
    pub open spec fn read_len(self, room: nat) -> nat {
        if self.position < 0 || self.position >= self.data.len() {
            0
        } else if self.position + room <= self.data.len() {
            room
        } else {
            (self.data.len() - self.position) as nat
        }
    }

    /// `buffer` after a read into it: what the read yields comes first, and what stood in
    /// the rest of the buffer stays.
    pub open spec fn read_into(self, buffer: Seq<u8>) -> Seq<u8> {
        Seq::new(
            buffer.len(),
            |i: int|
                if i < self.read_len(buffer.len()) {
                    self.data[self.position + i]
                } else {
                    buffer[i]
                },
        )
    }

    /// The source after a read that had room for `room` bytes.
    pub open spec fn after_read(self, room: nat) -> Source {
        Source { position: self.position + self.read_len(room), ..self }
    }

    /// The source after a seek to `target`.
    pub open spec fn after_seek(self, target: SeekTarget) -> Source {
        Source { position: target.lands(self.position, self.data.len() as int), ..self }
    }
}

/// A sector of `len` bytes, all of them zero.
pub open spec fn blank_sector(len: nat) -> Seq<u8> {
    Seq::new(len, |i: int| 0u8)
}

/// A scan under way on a source.
pub struct ScanRun {
    /// The device as the scan has left it.
    pub device: DeviceState,
    /// The source as the scan has left it.
    pub source: Source,
    /// The sector buffer as the last read has left it.
    pub buffer: Seq<u8>,
    /// The offsets at which the source stood when a sector was read, in the order of the
    /// reads.
    pub sampled: Seq<int>,
    /// How the scan ended, once it has.
    pub end: Option<Result<Outcome, Error>>,
}

impl ScanRun {
    /// A scan that has been told to start and has asked for its first read: nothing is
    /// sampled yet, and the sector buffer is blank.
    pub open spec fn begin(device: DeviceState, source: Source) -> ScanRun {
        ScanRun {
            device,
            source,
            buffer: blank_sector(device.sector_size as nat),
            sampled: Seq::empty(),
            end: None,
        }
    }

    /// One round of the scan: the read that it has asked for is made on the source and
    /// reported; if the scan answers with a seek, that is made and reported too. A scan that
    /// is over stays as it is.
    pub open spec fn round(self) -> ScanRun {
        if self.end is Some {
            self
        } else {
            let nbytes = self.source.read_len(self.buffer.len()) as usize;
            let buffer = self.source.read_into(self.buffer);
            let source = self.source.after_read(self.buffer.len());
            let sampled = self.sampled.push(self.source.position);
            let read = ScanInput::SectorRead { result: Ok(nbytes), buffer };
            match self.device.answer(read) {
                Ok(ScanAction::Seek(target)) => {
                    let moved = ScanInput::Moved(Ok(source.after_seek(target).position as u64));
                    ScanRun {
                        device: self.device.after(moved),
                        source: source.after_seek(target),
                        buffer,
                        sampled,
                        end: match self.device.answer(moved) {
                            Ok(_) => None,
                            Err(e) => Some(Err(e)),
                        },
                    }
                },
                Ok(ScanAction::Finish(outcome)) => ScanRun {
                    device: self.device.after(read),
                    source,
                    buffer,
                    sampled,
                    end: Some(Ok(outcome)),
                },
                Ok(ScanAction::Read { .. }) => ScanRun {
                    device: self.device.after(read),
                    source,
                    buffer,
                    sampled,
                    end: None,
                },
                Err(e) => ScanRun {
                    device: self.device.after(read),
                    source,
                    buffer,
                    sampled,
                    end: Some(Err(e)),
                },
            }
        }
    }

    /// The scan after `n` rounds.
    pub open spec fn rounds(self, n: nat) -> ScanRun
        decreases n,
    {
        if n == 0 {
            self
        } else {
            self.round().rounds((n - 1) as nat)
        }
    }
}

/// The sector of `data` that starts at `offset`: `size` bytes, or as many as are left.
pub open spec fn sector_at(data: Seq<u8>, offset: u64, size: nat) -> Seq<u8> {
    if offset >= data.len() {
        Seq::empty()
    } else if offset + size <= data.len() {
        data.subrange(offset as int, offset + size)
    } else {
        data.subrange(offset as int, data.len() as int)
    }
}

/// How many bytes of `data` lie at and after `offset`.
pub open spec fn bytes_left(data: Seq<u8>, offset: u64) -> nat {
    if offset < data.len() {
        (data.len() - offset) as nat
    } else {
        0
    }
}

/// What a scan of `data` in sectors of `size` bytes is to find, and where it is to look.
///
/// It looks at the sector at `offset`, and after that at the sector at the start of each
/// gigabyte that follows, one after the other. The first of them that holds a byte other
/// than zero ends it, with the gigabyte of that sector; the first that is blank and short of
/// `size` bytes ends it with nothing found. The second component lists the offsets of the
/// sectors looked at. There is no gigabyte to go on to once its start would lie beyond what
/// a `u64` counts: the scan then ends with nothing found.
pub open spec fn scan_of(data: Seq<u8>, offset: u64, size: nat) -> (Outcome, Seq<int>)
    decreases bytes_left(data, offset),
{
    if holds_data(sector_at(data, offset, size)) {
        (Outcome::Found { gigabyte: gigabyte_of(offset) }, seq![offset as int])
    } else if size == 0 || offset + size > data.len() || next_gigabyte_start(offset) > u64::MAX {
        (Outcome::AllZero, seq![offset as int])
    } else {
        let rest = scan_of(data, next_gigabyte_start(offset) as u64, size);
        (rest.0, seq![offset as int] + rest.1)
    }
}

/// After a read into a blank buffer, the buffer holds data exactly if the sector of the
/// source does at which the read was made.
proof fn lemma_read_shows_sector(source: Source, buffer: Seq<u8>, offset: u64)
    requires
        source.position == offset,
        !holds_data(buffer),
    ensures
        holds_data(source.read_into(buffer)) == holds_data(
            sector_at(source.data, offset, buffer.len()),
        ),
        !holds_data(source.read_into(buffer)) ==> source.read_into(buffer) =~= blank_sector(
            buffer.len(),
        ),
{
    let after = source.read_into(buffer);
    let sector = sector_at(source.data, offset, buffer.len());
    let n = source.read_len(buffer.len());
    assert(sector.len() == n);
    if holds_data(after) {
        let i = choose|i: int| 0 <= i < after.len() && #[trigger] after[i] != 0;
        if i >= n {
            assert(buffer[i] != 0);
        }
        assert(sector[i] != 0);
    }
    if holds_data(sector) {
        let i = choose|i: int| 0 <= i < sector.len() && #[trigger] sector[i] != 0;
        assert(after[i] != 0);
    }
    if !holds_data(after) {
        assert forall|i: int| 0 <= i < after.len() implies after[i] == 0 by {
            if after[i] != 0 {
                assert(holds_data(after));
            }
        }
    }
}

/// The seek that follows a blank full sector lands on the start of the next gigabyte,
/// wherever the source stands when the seek is made and however long the source is.
pub proof fn lemma_seek_lands_on_next_boundary(
    device: DeviceState,
    buffer: Seq<u8>,
    position: int,
    len: int,
)
    requires
        !holds_data(buffer),
        next_gigabyte_start(device.current) <= u64::MAX,
    ensures
        device.judge(device.sector_size, buffer) matches ScanAction::Seek(target) && target.lands(
            position,
            len,
        ) == next_gigabyte_start(device.current),
{
}

/// A byte other than zero ends the scan wherever in the buffer it stands, within what the
/// read filled or beyond, and the scan names the gigabyte that it sampled.
pub proof fn lemma_data_anywhere_is_found(
    device: DeviceState,
    nbytes: usize,
    buffer: Seq<u8>,
    i: int,
)
    requires
        0 <= i < buffer.len(),
        buffer[i] != 0,
    ensures
        device.answer(ScanInput::SectorRead { result: Ok(nbytes), buffer }) == Ok::<
            ScanAction,
            Error,
        >(ScanAction::Finish(Outcome::Found { gigabyte: gigabyte_of(device.current) })),
{
}

/// A scan under way on a source finds what [`scan_of`] says, and reads where it says.
///
/// The scan has asked for a read, its source stands at the device's current offset, and its
/// buffer is blank and one sector long. Then after as many rounds as `scan_of` lists
/// sectors, the scan is over with the outcome that `scan_of` names, and the reads it has
/// made since were made at the offsets that `scan_of` lists, and nowhere else.
pub proof fn lemma_round_by_round(run: ScanRun)
    requires
        run.end is None,
        run.device.wf(),
        run.source.position == run.device.current,
        run.buffer == blank_sector(run.device.sector_size as nat),
    ensures
        ({
            let (outcome, offsets) = scan_of(
                run.source.data,
                run.device.current,
                run.device.sector_size as nat,
            );
            let last = run.rounds(offsets.len());
            &&& last.end == Some(Ok::<Outcome, Error>(outcome))
            &&& last.sampled == run.sampled + offsets
            &&& offsets.len() >= 1
        }),
    decreases bytes_left(run.source.data, run.device.current),
{
    let data = run.source.data;
    let offset = run.device.current;
    let size = run.device.sector_size as nat;
    let next = run.round();
    let (outcome, offsets) = scan_of(data, offset, size);
    assert(!holds_data(run.buffer));
    lemma_read_shows_sector(run.source, run.buffer, offset);
    assert(next.sampled =~= run.sampled + seq![offset as int]);
    assert(run.rounds(1) == next) by {
        reveal_with_fuel(ScanRun::rounds, 2);
    }
    if holds_data(sector_at(data, offset, size)) {
    } else if offset + size > data.len() || next_gigabyte_start(offset) > u64::MAX {
    } else {
        let boundary = next_gigabyte_start(offset) as u64;
        let rest = scan_of(data, boundary, size);
        assert(next.device == run.device.at(boundary));
        assert(next.source.position == boundary);
        assert(next.end is None);
        lemma_round_by_round(next);
        assert(run.rounds((1 + rest.1.len()) as nat) == next.rounds(rest.1.len()));
        assert(offsets == seq![offset as int] + rest.1);
        assert(next.sampled + rest.1 =~= run.sampled + offsets);
    }
}

/// A scan finds what [`scan_of`] says of its source, and reads where it says.
///
/// A scan that starts on a source which stands at the device's current offset ends with the
/// outcome that `scan_of` names, and the sectors it has read by then are those that
/// `scan_of` lists: the one at the offset it starts at, then one at the start of each
/// gigabyte after it, and no other.
pub proof fn lemma_scan_follows_scan_of(device: DeviceState, data: Seq<u8>)
    requires
        device.wf(),
    ensures
        ({
            let (outcome, offsets) = scan_of(data, device.current, device.sector_size as nat);
            let last = ScanRun::begin(
                device,
                Source { data, position: device.current as int },
            ).rounds(offsets.len());
            &&& last.end == Some(Ok::<Outcome, Error>(outcome))
            &&& last.sampled == offsets
        }),
{
    let run = ScanRun::begin(device, Source { data, position: device.current as int });
    lemma_round_by_round(run);
    let offsets = scan_of(data, device.current, device.sector_size as nat).1;
    assert(run.sampled + offsets =~= offsets);
}

/// Every sector after the first is sampled at the start of a gigabyte: the one that follows
/// the gigabyte sampled before it. That holds whether the first offset lies on a boundary or
/// not. And there is a second sector to sample whenever the first is full and blank and a
/// gigabyte follows.
pub proof fn lemma_samples_are_gigabyte_starts(data: Seq<u8>, offset: u64, size: nat)
    ensures
        ({
            let offsets = scan_of(data, offset, size).1;
            &&& offsets.len() >= 1
            &&& offsets[0] == offset
            &&& forall|k: int|
                1 <= k < offsets.len() ==> #[trigger] offsets[k] == (gigabyte_of(offset) + k)
                    * GB_SIZE
            &&& (size > 0 && offset + size <= data.len() && !holds_data(
                sector_at(data, offset, size),
            ) && next_gigabyte_start(offset) <= u64::MAX) ==> offsets.len() >= 2
        }),
    decreases bytes_left(data, offset),
{
    let offsets = scan_of(data, offset, size).1;
    if holds_data(sector_at(data, offset, size)) {
    } else if size == 0 || offset + size > data.len() || next_gigabyte_start(offset) > u64::MAX {
    } else {
        let boundary = next_gigabyte_start(offset) as u64;
        let rest = scan_of(data, boundary, size).1;
        lemma_samples_are_gigabyte_starts(data, boundary, size);
        assert(gigabyte_of(boundary) == gigabyte_of(offset) + 1);
        assert forall|k: int| 1 <= k < offsets.len() implies #[trigger] offsets[k] == (gigabyte_of(
            offset,
        ) + k) * GB_SIZE by {
            assert(offsets[k] == rest[k - 1]);
            if k > 1 {
                assert(rest[k - 1] == (gigabyte_of(boundary) + (k - 1)) * GB_SIZE);
            }
        }
    }
}

/// `blank` gigabytes of zeros, followed by `block`.
pub open spec fn blank_gigabytes_then(blank: nat, block: Seq<u8>) -> Seq<u8> {
    blank_sector(blank * GB_SIZE as nat) + block
}

/// In a scan of blank gigabytes followed by a block with data in its first sector, what is
/// left to find from the start of the `k`th gigabyte on.
proof fn lemma_scan_of_blank_gigabytes(blank: nat, block: Seq<u8>, size: nat, j: int, k: nat)
    requires
        0 < size <= GB_SIZE,
        0 <= j < size,
        j < block.len(),
        block[j] != 0,
        blank * GB_SIZE <= u64::MAX,
        k <= blank,
    ensures
        ({
            let found = scan_of(blank_gigabytes_then(blank, block), (k * GB_SIZE) as u64, size);
            &&& found.0 == Outcome::Found { gigabyte: blank as u64 }
            &&& found.1 == Seq::new((blank + 1 - k) as nat, |i: int| (k + i) * GB_SIZE)
        }),
    decreases blank - k,
{
    let data = blank_gigabytes_then(blank, block);
    let offset = (k * GB_SIZE) as u64;
    let sector = sector_at(data, offset, size);
    let found = scan_of(data, offset, size);
    let expected = Seq::new((blank + 1 - k) as nat, |i: int| (k + i) * GB_SIZE);
    assert(gigabyte_of(offset) == k);
    if k == blank {
        assert(sector[j] == data[offset + j]);
        assert(data[offset + j] == block[j]);
        assert(holds_data(sector));
        assert(found.1 =~= expected);
    } else {
        assert(offset + size <= blank * GB_SIZE);
        assert forall|i: int| 0 <= i < sector.len() implies sector[i] == 0 by {
            assert(sector[i] == data[offset + i]);
        }
        assert(!holds_data(sector));
        assert(next_gigabyte_start(offset) == (k + 1) * GB_SIZE);
        lemma_scan_of_blank_gigabytes(blank, block, size, j, k + 1);
        let rest = scan_of(data, ((k + 1) * GB_SIZE) as u64, size);
        assert(found.1 == seq![offset as int] + rest.1);
        assert(found.1 =~= expected);
    }
}

/// Behind any number of blank gigabytes, data in the first sector of the gigabyte that
/// follows is found, and it takes one read at the start of each gigabyte.
///
/// The source holds `blank` gigabytes of zeros and then a block that has a byte other than
/// zero among the first bytes that make up a sector; the scan starts at offset 0 with a
/// sector no longer than a gigabyte. It ends after `blank + 1` rounds, names the gigabyte
/// `blank`, and has read at the offsets 0, 2^30, and so on up to `blank` times 2^30, and
/// nowhere else.
pub proof fn lemma_data_behind_blank_gigabytes(
    device: DeviceState,
    blank: nat,
    block: Seq<u8>,
    j: int,
)
    requires
        device.current == 0,
        0 < device.sector_size <= GB_SIZE,
        0 <= j < device.sector_size,
        j < block.len(),
        block[j] != 0,
        blank * GB_SIZE <= u64::MAX,
    ensures
        ({
            let source = Source { data: blank_gigabytes_then(blank, block), position: 0 };
            let last = ScanRun::begin(device, source).rounds(blank + 1);
            &&& last.end == Some(Ok::<Outcome, Error>(Outcome::Found { gigabyte: blank as u64 }))
            &&& last.sampled == Seq::new(blank + 1, |k: int| k * GB_SIZE)
        }),
{
    lemma_scan_of_blank_gigabytes(blank, block, device.sector_size as nat, j, 0);
    lemma_scan_follows_scan_of(device, blank_gigabytes_then(blank, block));
}

/// A source that holds less than one sector, and nothing but zeros, is found blank after a
/// single read.
pub proof fn lemma_short_blank_source(device: DeviceState, data: Seq<u8>)
    requires
        device.current == 0,
        data.len() < device.sector_size,
        !holds_data(data),
    ensures
        ({
            let last = ScanRun::begin(device, Source { data, position: 0 }).rounds(1);
            &&& last.end == Some(Ok::<Outcome, Error>(Outcome::AllZero))
            &&& last.sampled == seq![0int]
        }),
{
    let sector = sector_at(data, 0, device.sector_size as nat);
    if holds_data(sector) {
        let i = choose|i: int| 0 <= i < sector.len() && #[trigger] sector[i] != 0;
        assert(data[i] != 0);
    }
    lemma_scan_follows_scan_of(device, data);
}

} // verus!
