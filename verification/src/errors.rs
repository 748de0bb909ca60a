//! The ways a run can fail.

use vstd::prelude::*;

verus! {

/// `std::io::Error`, carried through as an opaque value: nothing is claimed about what one
/// holds, it is only handed on inside an [`Error`] for the caller to report.
#[verifier::external_type_specification]
#[verifier::external_body]
pub struct ExIoError(std::io::Error);

/// Why a run ended early. Every failure is final: nothing is retried.
#[derive(Debug)]
pub enum Error {
    /// The source could not be opened.
    FileOpen(std::io::Error),
    /// The source could not be brought back to where it stood before its size was measured.
    RewindFailed(std::io::Error),
    /// The source could not be moved to another offset.
    SeekFailed(std::io::Error),
    /// The progress display could not be flushed.
    FlushError(std::io::Error),
    /// A sector could not be read.
    ReadError(std::io::Error),
    /// A size was not written as an unsigned number with an optional `B` or `GB` suffix,
    /// or it names more bytes than a `u64` counts.
    ParseError,
}

} // verus!
