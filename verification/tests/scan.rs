use std::io::{Cursor, Error as IoError, ErrorKind, Read, Result as IoResult, Seek, SeekFrom};

use zeroscan::device::Device;
use zeroscan::errors::Error;
use zeroscan::globals::GB_SIZE;
use zeroscan::scan::{has_data, Outcome, ScanAction, ScanEvent};
use zeroscan::seek::SeekTarget;

/// A source of `len` bytes, all zero but for those listed in `data`. It reads and seeks as a
/// file does, and keeps the offset and the length of every read made on it.
struct Sparse {
    len: u64,
    data: Vec<(u64, u8)>,
    position: u64,
    reads: Vec<(u64, usize)>,
}

impl Sparse {
    fn new(len: u64, data: &[(u64, u8)]) -> Sparse {
        Sparse { len, data: data.to_vec(), position: 0, reads: Vec::new() }
    }

    fn read_offsets(&self) -> Vec<u64> {
        self.reads.iter().map(|read| read.0).collect()
    }
}

impl Read for Sparse {
    fn read(&mut self, buffer: &mut [u8]) -> IoResult<usize> {
        self.reads.push((self.position, buffer.len()));
        let left = self.len.saturating_sub(self.position);
        let nbytes = if (buffer.len() as u64) < left { buffer.len() } else { left as usize };
        for i in 0..nbytes {
            buffer[i] = 0;
        }
        for &(offset, byte) in &self.data {
            if offset >= self.position && offset - self.position < nbytes as u64 {
                buffer[(offset - self.position) as usize] = byte;
            }
        }
        self.position += nbytes as u64;
        Ok(nbytes)
    }
}

impl Seek for Sparse {
    fn seek(&mut self, from: SeekFrom) -> IoResult<u64> {
        let target = match from {
            SeekFrom::Start(offset) => Some(offset),
            SeekFrom::End(delta) => self.len.checked_add_signed(delta),
            SeekFrom::Current(delta) => self.position.checked_add_signed(delta),
        };
        match target {
            Some(offset) => {
                self.position = offset;
                Ok(offset)
            }
            None => Err(IoError::new(ErrorKind::InvalidInput, "no such offset")),
        }
    }
}

fn seek_from(target: SeekTarget) -> SeekFrom {
    match target {
        SeekTarget::Start(offset) => SeekFrom::Start(offset),
        SeekTarget::End(delta) => SeekFrom::End(delta),
        SeekTarget::Current(delta) => SeekFrom::Current(delta),
    }
}

/// Sets a device up as a run does: the source is moved to where `seek` says, if it says.
fn open<S: Seek>(sector_size: usize, seek: Option<&str>, source: &mut S) -> Device {
    let seek = seek.map(|text| text.to_string());
    let (mut device, start) = Device::new(Some(sector_size), seek, None).unwrap();
    if let Some(target) = start {
        device.reposition(source.seek(seek_from(target))).unwrap();
    }
    device
}

/// Carries a scan out on `source`; returns how it ended and how many reads it took.
fn scan<S: Read + Seek>(device: &mut Device, source: &mut S) -> (Result<Outcome, Error>, usize) {
    let mut buffer = vec![0u8; device.sector_size()];
    let mut reads = 0;
    let mut answer = device.find_first_non_zero(ScanEvent::Started);
    loop {
        answer = match answer {
            Ok(ScanAction::Read { len, .. }) => {
                assert_eq!(len, buffer.len());
                reads += 1;
                let result = source.read(&mut buffer);
                device.find_first_non_zero(ScanEvent::SectorRead { result, buffer: &buffer })
            }
            Ok(ScanAction::Seek(target)) => {
                let moved = source.seek(seek_from(target));
                device.find_first_non_zero(ScanEvent::Moved(moved))
            }
            Ok(ScanAction::Finish(outcome)) => return (Ok(outcome), reads),
            Err(e) => return (Err(e), reads),
        }
    }
}

fn device_at(sector_size: usize, offset: u64, status: bool) -> Device {
    let (mut device, _) = Device::new(Some(sector_size), None, Some(status)).unwrap();
    device.reposition(Ok(offset)).unwrap();
    device
}

fn sector_read<'a>(nbytes: usize, buffer: &'a [u8]) -> ScanEvent<'a> {
    ScanEvent::SectorRead { result: Ok(nbytes), buffer }
}

#[test]
fn has_data_looks_at_every_byte() {
    assert!(!has_data(&[]));
    assert!(!has_data(&[0]));
    assert!(!has_data(&[0; 512]));
    assert!(has_data(&[1]));
    assert!(has_data(&[255, 0, 0]));
    assert!(has_data(&[0, 0, 1]));
    let mut sector = [0u8; 512];
    sector[300] = 0x80;
    assert!(has_data(&sector));
}

#[test]
fn scan_starts_with_a_read_of_one_sector() {
    let mut device = device_at(512, 0, false);
    let answer = device.find_first_non_zero(ScanEvent::Started).unwrap();
    assert_eq!(answer, ScanAction::Read { len: 512, banner: Some(0), progress: None });
    assert_eq!(device.current(), 0);
}

#[test]
fn banner_names_the_gigabyte_the_scan_starts_in() {
    let mut device = device_at(4096, 5 * GB_SIZE + 123, false);
    let answer = device.find_first_non_zero(ScanEvent::Started).unwrap();
    assert_eq!(answer, ScanAction::Read { len: 4096, banner: Some(5), progress: None });

    let mut device = device_at(4096, GB_SIZE - 1, false);
    let answer = device.find_first_non_zero(ScanEvent::Started).unwrap();
    assert_eq!(answer, ScanAction::Read { len: 4096, banner: Some(0), progress: None });
}

#[test]
fn progress_is_shown_only_when_switched_on() {
    let mut quiet = device_at(512, 2 * GB_SIZE, false);
    let mut shown = device_at(512, 2 * GB_SIZE, true);
    assert_eq!(
        quiet.find_first_non_zero(ScanEvent::Started).unwrap(),
        ScanAction::Read { len: 512, banner: Some(2), progress: None }
    );
    assert_eq!(
        shown.find_first_non_zero(ScanEvent::Started).unwrap(),
        ScanAction::Read { len: 512, banner: Some(2), progress: Some(2) }
    );
    assert_eq!(
        quiet.find_first_non_zero(ScanEvent::Moved(Ok(3 * GB_SIZE))).unwrap(),
        ScanAction::Read { len: 512, banner: None, progress: None }
    );
    assert_eq!(
        shown.find_first_non_zero(ScanEvent::Moved(Ok(3 * GB_SIZE))).unwrap(),
        ScanAction::Read { len: 512, banner: None, progress: Some(3) }
    );
}

#[test]
fn data_is_found_at_any_position_in_the_sector() {
    for position in [0usize, 1, 255, 256, 510, 511] {
        let mut sector = [0u8; 512];
        sector[position] = 1;
        let mut device = device_at(512, 7 * GB_SIZE, false);
        let answer = device.find_first_non_zero(sector_read(512, &sector)).unwrap();
        assert_eq!(answer, ScanAction::Finish(Outcome::Found { gigabyte: 7 }));
        assert_eq!(device.current(), 7 * GB_SIZE);
    }
}

#[test]
fn data_beyond_what_a_short_read_filled_is_found() {
    let mut sector = [0u8; 512];
    sector[511] = 9;
    for nbytes in [0usize, 1, 100, 511] {
        let mut device = device_at(512, 0, false);
        let answer = device.find_first_non_zero(sector_read(nbytes, &sector)).unwrap();
        assert_eq!(answer, ScanAction::Finish(Outcome::Found { gigabyte: 0 }));
    }
}

#[test]
fn found_names_the_gigabyte_of_the_sampled_offset() {
    let sector = [0u8, 0, 0, 4];
    for (offset, gigabyte) in [
        (0u64, 0u64),
        (GB_SIZE - 1, 0),
        (GB_SIZE, 1),
        (10 * GB_SIZE + 5, 10),
        (u64::MAX, (1 << 34) - 1),
    ] {
        let mut device = device_at(4, offset, false);
        let answer = device.find_first_non_zero(sector_read(4, &sector)).unwrap();
        assert_eq!(answer, ScanAction::Finish(Outcome::Found { gigabyte }));
    }
}

#[test]
fn blank_short_read_ends_the_scan() {
    let sector = [0u8; 512];
    for nbytes in [0usize, 1, 511] {
        let mut device = device_at(512, 3 * GB_SIZE, true);
        let answer = device.find_first_non_zero(sector_read(nbytes, &sector)).unwrap();
        assert_eq!(answer, ScanAction::Finish(Outcome::AllZero));
    }
}

#[test]
fn blank_full_sector_sends_the_scan_to_the_start_of_the_next_gigabyte() {
    let sector = [0u8; 512];
    let mut device = device_at(512, 0, false);
    let answer = device.find_first_non_zero(sector_read(512, &sector)).unwrap();
    assert_eq!(answer, ScanAction::Seek(SeekTarget::Start(1_073_741_824)));
    assert_eq!(device.current(), 0);

    let mut device = device_at(512, 4 * GB_SIZE, false);
    let answer = device.find_first_non_zero(sector_read(512, &sector)).unwrap();
    assert_eq!(answer, ScanAction::Seek(SeekTarget::Start(5_368_709_120)));
}

#[test]
fn seek_from_off_a_boundary_names_the_next_boundary() {
    let sector = [0u8; 512];
    for offset in [1u64, 512, 1000, GB_SIZE - 1, GB_SIZE + 1, 9 * GB_SIZE + 123_456] {
        let mut device = device_at(512, offset, false);
        let answer = device.find_first_non_zero(sector_read(512, &sector)).unwrap();
        let boundary = offset + (GB_SIZE - offset % GB_SIZE);
        assert_eq!(boundary % GB_SIZE, 0);
        assert_eq!(boundary / GB_SIZE, offset / GB_SIZE + 1);
        assert_eq!(answer, ScanAction::Seek(SeekTarget::Start(boundary)));
    }
    let mut device = device_at(512, 1000, false);
    let answer = device.find_first_non_zero(sector_read(512, &sector)).unwrap();
    assert_eq!(answer, ScanAction::Seek(SeekTarget::Start(1 << 30)));
}

#[test]
fn no_gigabyte_follows_the_last_one() {
    let sector = [0u8; 512];
    let last = ((1u64 << 34) - 1) * GB_SIZE;
    for offset in [last, last + 1, u64::MAX - 512, u64::MAX] {
        let mut device = device_at(512, offset, false);
        let answer = device.find_first_non_zero(sector_read(512, &sector)).unwrap();
        assert_eq!(answer, ScanAction::Finish(Outcome::AllZero));
    }
    let mut device = device_at(512, last - 1, false);
    let answer = device.find_first_non_zero(sector_read(512, &sector)).unwrap();
    assert_eq!(answer, ScanAction::Seek(SeekTarget::Start(last)));
}

#[test]
fn device_stands_where_the_source_reports_after_a_seek() {
    let mut device = device_at(512, 1000, true);
    let answer = device.find_first_non_zero(ScanEvent::Moved(Ok(GB_SIZE))).unwrap();
    assert_eq!(answer, ScanAction::Read { len: 512, banner: None, progress: Some(1) });
    assert_eq!(device.current(), GB_SIZE);
    assert_eq!(device.sector_size(), 512);
    assert!(device.status());
}

#[test]
fn failures_end_the_scan_with_their_kind() {
    let sector = [1u8; 512];
    let mut device = device_at(512, 77, true);

    let failed = ScanEvent::FlushFailed(IoError::new(ErrorKind::WriteZero, "stdout closed"));
    match device.find_first_non_zero(failed) {
        Err(Error::FlushError(e)) => assert_eq!(e.kind(), ErrorKind::WriteZero),
        other => panic!("unexpected {:?}", other),
    }
    let failed = ScanEvent::SectorRead {
        result: Err(IoError::new(ErrorKind::UnexpectedEof, "bad sector")),
        buffer: &sector,
    };
    match device.find_first_non_zero(failed) {
        Err(Error::ReadError(e)) => assert_eq!(e.kind(), ErrorKind::UnexpectedEof),
        other => panic!("unexpected {:?}", other),
    }
    let failed = ScanEvent::Moved(Err(IoError::new(ErrorKind::InvalidInput, "too far")));
    match device.find_first_non_zero(failed) {
        Err(Error::SeekFailed(e)) => assert_eq!(e.kind(), ErrorKind::InvalidInput),
        other => panic!("unexpected {:?}", other),
    }
    assert_eq!(device.current(), 77);
}

#[test]
fn data_in_the_first_sector_of_the_second_gigabyte_is_found() {
    let mut source = Sparse::new(GB_SIZE + 512, &[(GB_SIZE + 511, 1)]);
    let mut device = open(512, None, &mut source);
    let (outcome, reads) = scan(&mut device, &mut source);
    assert_eq!(outcome.unwrap(), Outcome::Found { gigabyte: 1 });
    assert_eq!(reads, 2);
    assert_eq!(source.reads, vec![(0, 512), (1_073_741_824, 512)]);
    assert_eq!(Outcome::Found { gigabyte: 1 }.message(), "Found non-empty buffer at @1Gb");
}

#[test]
fn data_behind_blank_gigabytes_takes_one_read_at_each_gigabyte_start() {
    for sector_size in [1usize, 512, 4096, 1 << 20] {
        for blank in [0u64, 1, 2, 5, 40] {
            for position in [0, sector_size as u64 / 2, sector_size as u64 - 1] {
                let byte = blank * GB_SIZE + position;
                let mut source = Sparse::new(blank * GB_SIZE + sector_size as u64, &[(byte, 0xff)]);
                let mut device = open(sector_size, None, &mut source);
                let (outcome, reads) = scan(&mut device, &mut source);
                assert_eq!(outcome.unwrap(), Outcome::Found { gigabyte: blank });
                assert_eq!(reads as u64, blank + 1);
                let starts: Vec<u64> = (0..=blank).map(|k| k * GB_SIZE).collect();
                assert_eq!(source.read_offsets(), starts);
                assert!(source.reads.iter().all(|read| read.1 == sector_size));
            }
        }
    }
}

#[test]
fn block_behind_blank_gigabytes_may_be_longer_than_its_first_sector() {
    let mut source = Sparse::new(4 * GB_SIZE, &[(3 * GB_SIZE + 7, 1), (3 * GB_SIZE + 9000, 2)]);
    let mut device = open(512, None, &mut source);
    let (outcome, reads) = scan(&mut device, &mut source);
    assert_eq!(outcome.unwrap(), Outcome::Found { gigabyte: 3 });
    assert_eq!(reads, 4);
    assert_eq!(source.read_offsets(), vec![0, GB_SIZE, 2 * GB_SIZE, 3 * GB_SIZE]);
}

#[test]
fn sector_of_a_whole_gigabyte_still_samples_every_gigabyte() {
    let sector_size = GB_SIZE as usize;
    let mut device = device_at(sector_size, 0, false);
    let zeros = vec![0u8; 16];
    let answer = device.find_first_non_zero(sector_read(sector_size, &zeros)).unwrap();
    assert_eq!(answer, ScanAction::Seek(SeekTarget::Start(GB_SIZE)));
    let answer = device.find_first_non_zero(ScanEvent::Moved(Ok(GB_SIZE))).unwrap();
    assert_eq!(answer, ScanAction::Read { len: sector_size, banner: None, progress: None });
    assert_eq!(device.current(), GB_SIZE);
}

#[test]
fn scan_from_a_seek_offset_off_a_boundary_goes_on_at_boundaries() {
    let mut source = Sparse::new(GB_SIZE + 512, &[(GB_SIZE, 1)]);
    let mut device = open(512, Some("1000"), &mut source);
    assert_eq!(device.current(), 1000);
    let (outcome, reads) = scan(&mut device, &mut source);
    assert_eq!(outcome.unwrap(), Outcome::Found { gigabyte: 1 });
    assert_eq!(reads, 2);
    assert_eq!(source.read_offsets(), vec![1000, 1_073_741_824]);
}

#[test]
fn every_read_after_the_first_is_at_the_next_gigabyte_start() {
    for start in [1u64, 511, 1000, GB_SIZE - 512, 2 * GB_SIZE + 4096, 3 * GB_SIZE] {
        let len = 8 * GB_SIZE + 100;
        let mut source = Sparse::new(len, &[]);
        let mut device = open(512, Some(&start.to_string()), &mut source);
        let (outcome, reads) = scan(&mut device, &mut source);
        assert_eq!(outcome.unwrap(), Outcome::AllZero);
        let mut offsets = vec![start];
        let mut boundary = (start / GB_SIZE + 1) * GB_SIZE;
        while boundary <= 8 * GB_SIZE {
            offsets.push(boundary);
            boundary += GB_SIZE;
        }
        assert_eq!(source.read_offsets(), offsets);
        assert_eq!(reads, offsets.len());
        assert_eq!(device.current(), 8 * GB_SIZE);
    }
}

#[test]
fn data_that_no_sample_meets_is_passed_over() {
    // Only one sector of each gigabyte is looked at.
    let mut source = Sparse::new(2 * GB_SIZE + 512, &[(512, 1), (GB_SIZE + 512, 1), (GB_SIZE - 1, 1)]);
    let mut device = open(512, None, &mut source);
    let (outcome, reads) = scan(&mut device, &mut source);
    assert_eq!(outcome.unwrap(), Outcome::AllZero);
    assert_eq!(reads, 4);
    assert_eq!(source.read_offsets(), vec![0, GB_SIZE, 2 * GB_SIZE, 3 * GB_SIZE]);
}

#[test]
fn seek_with_a_gigabyte_suffix_starts_in_that_gigabyte() {
    let mut source = Sparse::new(6 * GB_SIZE, &[(GB_SIZE, 1), (5 * GB_SIZE + 3, 1)]);
    let mut device = open(4096, Some("2GB"), &mut source);
    assert_eq!(device.current(), 2 * GB_SIZE);
    let (outcome, reads) = scan(&mut device, &mut source);
    assert_eq!(outcome.unwrap(), Outcome::Found { gigabyte: 5 });
    assert_eq!(reads, 4);
    assert_eq!(source.read_offsets(), vec![2 * GB_SIZE, 3 * GB_SIZE, 4 * GB_SIZE, 5 * GB_SIZE]);
}

#[test]
fn source_shorter_than_a_sector_and_blank_takes_one_read() {
    for len in [0usize, 1, 100, 511] {
        let mut source = Cursor::new(vec![0u8; len]);
        let mut device = open(512, None, &mut source);
        let (outcome, reads) = scan(&mut device, &mut source);
        assert_eq!(outcome.unwrap(), Outcome::AllZero);
        assert_eq!(reads, 1);
    }
    let mut source = Sparse::new(300, &[]);
    let mut device = open(512, None, &mut source);
    let (outcome, _) = scan(&mut device, &mut source);
    assert_eq!(outcome.unwrap(), Outcome::AllZero);
    assert_eq!(source.reads, vec![(0, 512)]);
}

#[test]
fn data_in_the_first_sector_of_a_source_is_found_at_once() {
    for position in [0usize, 256, 511] {
        let mut bytes = vec![0u8; 4096];
        bytes[position] = 1;
        let mut source = Cursor::new(bytes);
        let mut device = open(512, None, &mut source);
        let (outcome, reads) = scan(&mut device, &mut source);
        assert_eq!(outcome.unwrap(), Outcome::Found { gigabyte: 0 });
        assert_eq!(reads, 1);
    }
}

#[test]
fn data_in_a_source_shorter_than_a_sector_is_found() {
    let mut source = Cursor::new(vec![0u8, 0, 0, 5, 0]);
    let mut device = open(512, None, &mut source);
    let (outcome, reads) = scan(&mut device, &mut source);
    assert_eq!(outcome.unwrap(), Outcome::Found { gigabyte: 0 });
    assert_eq!(reads, 1);
}

#[test]
fn blank_source_of_a_few_sectors_is_read_twice() {
    // The first sector is full and blank; the next read, at the start of the gigabyte that
    // follows, is past the end of the source and comes up short.
    let mut source = Cursor::new(vec![0u8; 2048]);
    let mut device = open(512, None, &mut source);
    let (outcome, reads) = scan(&mut device, &mut source);
    assert_eq!(outcome.unwrap(), Outcome::AllZero);
    assert_eq!(reads, 2);
    assert_eq!(device.current(), GB_SIZE);
    assert_eq!(source.position(), GB_SIZE);
    assert_eq!(Outcome::AllZero.message(), "The device is full of zeroes!!");
}

#[test]
fn scan_that_starts_past_the_data_finds_none() {
    let mut bytes = vec![0u8; 4096];
    bytes[10] = 1;
    let mut source = Cursor::new(bytes);
    let mut device = open(512, Some("512"), &mut source);
    let (outcome, reads) = scan(&mut device, &mut source);
    assert_eq!(outcome.unwrap(), Outcome::AllZero);
    assert_eq!(reads, 2);
}

#[test]
fn failed_read_on_the_source_ends_the_scan() {
    struct Broken;
    impl Read for Broken {
        fn read(&mut self, _: &mut [u8]) -> IoResult<usize> {
            Err(IoError::new(ErrorKind::PermissionDenied, "no"))
        }
    }
    impl Seek for Broken {
        fn seek(&mut self, _: SeekFrom) -> IoResult<u64> {
            Ok(0)
        }
    }
    let mut source = Broken;
    let mut device = open(512, None, &mut source);
    let (outcome, reads) = scan(&mut device, &mut source);
    assert!(matches!(outcome, Err(Error::ReadError(_))));
    assert_eq!(reads, 1);
}
