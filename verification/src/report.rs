//! The lines a run prints.

use crate::globals::{gigabyte_of, GB_SIZE};
use crate::scan::Outcome;
use crate::size::{decimal_digits, digit_char};
use vstd::prelude::*;
use vstd::string::*;

verus! {

/// The line that tells the size of the source, in whole gigabytes.
pub open spec fn size_text(size: u64) -> Seq<char> {
    "Device size: "@ + decimal_digits(gigabyte_of(size) as nat) + "Gb"@
}

/// The line that tells in which gigabyte the scan starts.
pub open spec fn banner_text(gigabyte: u64) -> Seq<char> {
    "Starting looking for data from "@ + decimal_digits(gigabyte as nat) + "Gb"@
}

/// The progress display: it begins with a carriage return, so that each one overwrites the
/// one before, and ends in no newline.
pub open spec fn progress_text(gigabyte: u64) -> Seq<char> {
    "\rRead "@ + decimal_digits(gigabyte as nat) + "Gb\t"@
}

/// The line that tells how the scan ended.
pub open spec fn outcome_text(outcome: Outcome) -> Seq<char> {
    match outcome {
        Outcome::Found { gigabyte } => "Found non-empty buffer at @"@ + decimal_digits(
            gigabyte as nat,
        ) + "Gb"@,
        Outcome::AllZero => "The device is full of zeroes!!"@,
    }
}

/// The text of a single decimal digit.
fn digit(d: u64) -> (text: &'static str)
    requires
        d < 10,
    ensures
        text@ == seq![digit_char(d as nat)],
{
    proof {
        reveal_strlit("0");
        reveal_strlit("1");
        reveal_strlit("2");
        reveal_strlit("3");
        reveal_strlit("4");
        reveal_strlit("5");
        reveal_strlit("6");
        reveal_strlit("7");
        reveal_strlit("8");
        reveal_strlit("9");
    }
    let text = if d == 0 {
        "0"
    } else if d == 1 {
        "1"
    } else if d == 2 {
        "2"
    } else if d == 3 {
        "3"
    } else if d == 4 {
        "4"
    } else if d == 5 {
        "5"
    } else if d == 6 {
        "6"
    } else if d == 7 {
        "7"
    } else if d == 8 {
        "8"
    } else {
        "9"
    };
    assert(text@ =~= seq![digit_char(d as nat)]);
    text
}

/// Writes `n` out in decimal digits, in the shortest way.
pub fn decimal(n: u64) -> (text: String)
    ensures
        text@ == decimal_digits(n as nat),
    decreases n,
{
    if n < 10 {
        String::from_str(digit(n))
    } else {
        let mut text = decimal(n / 10);
        text.append(digit(n % 10));
        assert(text@ =~= decimal_digits(n as nat));
        text
    }
}

/// `head`, then `n` in decimal, then `tail`.
fn framed(head: &str, n: u64, tail: &str) -> (text: String)
    ensures
        text@ == head@ + decimal_digits(n as nat) + tail@,
{
    let mut text = String::from_str(head);
    let digits = decimal(n);
    text.append(digits.as_str());
    text.append(tail);
    text
}

/// The line that tells the size of a source of `size` bytes.
pub fn size_line(size: u64) -> (text: String)
    ensures
        text@ == size_text(size),
{
    framed("Device size: ", size / GB_SIZE, "Gb")
}

/// The line that tells that the scan starts in `gigabyte`.
pub fn banner_line(gigabyte: u64) -> (text: String)
    ensures
        text@ == banner_text(gigabyte),
{
    framed("Starting looking for data from ", gigabyte, "Gb")
}

/// The progress display for a read in `gigabyte`.
pub fn progress_line(gigabyte: u64) -> (text: String)
    ensures
        text@ == progress_text(gigabyte),
{
    framed("\rRead ", gigabyte, "Gb\t")
}

impl Outcome {
    /// The line that tells of this outcome.
    pub fn message(&self) -> (text: String)
        ensures
            text@ == outcome_text(*self),
    {
        match *self {
            Outcome::Found { gigabyte } => framed("Found non-empty buffer at @", gigabyte, "Gb"),
            Outcome::AllZero => String::from_str("The device is full of zeroes!!"),
        }
    }
}

} // verus!
