//! Sizes as people write them: `512`, `512B`, `5GB`.

use crate::device::Device;
use crate::errors::Error;
use crate::globals::GB_SIZE;
use vstd::prelude::*;
use vstd::string::*;
use vstd::utf8::is_ascii_chars;

verus! {

/// Whether `c` is one of the ten decimal digits.
pub open spec fn is_digit(c: char) -> bool {
    '0' <= c <= '9'
}

/// The number a decimal digit stands for.
pub open spec fn digit_value(c: char) -> nat
    recommends
        is_digit(c),
{
    (c as int - '0' as int) as nat
}

/// The digit that stands for `d`.
pub open spec fn digit_char(d: nat) -> char
    recommends
        d < 10,
{
    ('0' as int + d) as char
}

/// Whether `s` holds decimal digits and nothing else.
pub open spec fn all_digits(s: Seq<char>) -> bool {
    forall|i: int| 0 <= i < s.len() ==> is_digit(#[trigger] s[i])
}

/// The number that a run of decimal digits denotes, most significant digit first.
pub open spec fn decimal_value(digits: Seq<char>) -> nat
    decreases digits.len(),
{
    if digits.len() == 0 {
        0
    } else {
        10 * decimal_value(digits.drop_last()) + digit_value(digits.last())
    }
}

/// The shortest way to write `n` in decimal digits.
pub open spec fn decimal_digits(n: nat) -> Seq<char>
    decreases n,
{
    if n < 10 {
        seq![digit_char(n)]
    } else {
        decimal_digits(n / 10).push(digit_char(n % 10))
    }
}

/// The digits of an unsigned number: the text itself, without the `+` that may lead it.
pub open spec fn unsigned_digits(s: Seq<char>) -> Seq<char> {
    if s.len() > 0 && s[0] == '+' {
        s.drop_first()
    } else {
        s
    }
}

/// The value of `s` read as an unsigned 64-bit number: an optional `+`, then one or more
/// decimal digits whose value fits. `None` for any other text.
pub open spec fn unsigned_value(s: Seq<char>) -> Option<u64> {
    let digits = unsigned_digits(s);
    if digits.len() > 0 && all_digits(digits) && decimal_value(digits) <= u64::MAX {
        Some(decimal_value(digits) as u64)
    } else {
        None
    }
}

/// Whether `s` ends in `GB`.
pub open spec fn has_gigabyte_suffix(s: Seq<char>) -> bool {
    s.len() >= 2 && s[s.len() - 2] == 'G' && s[s.len() - 1] == 'B'
}

/// Whether `s` ends in `B`.
pub open spec fn has_byte_suffix(s: Seq<char>) -> bool {
    s.len() >= 1 && s[s.len() - 1] == 'B'
}

/// The part of a size that must be a number: all that stands before the unit.
/// `GB` is looked for before a bare `B`.
pub open spec fn numeric_part(s: Seq<char>) -> Seq<char> {
    if has_gigabyte_suffix(s) {
        s.take(s.len() - 2)
    } else if has_byte_suffix(s) {
        s.take(s.len() - 1)
    } else {
        s
    }
}

/// The byte count that the size `s` names, if it names one: the number before the unit,
/// taken in gigabytes under `GB` and in bytes otherwise.
pub open spec fn size_of(s: Seq<char>) -> Option<u64> {
    match unsigned_value(numeric_part(s)) {
        Some(n) => if !has_gigabyte_suffix(s) {
            Some(n)
        } else if n * GB_SIZE <= u64::MAX {
            Some((n * GB_SIZE) as u64)
        } else {
            None
        },
        None => None,
    }
}

/// A run of digits is worth at least as much as any of its prefixes.
proof fn lemma_decimal_value_prefix(digits: Seq<char>, k: int)
    requires
        0 <= k <= digits.len(),
    ensures
        decimal_value(digits.take(k)) <= decimal_value(digits),
    decreases digits.len(),
{
    if k == digits.len() {
        assert(digits.take(k) =~= digits);
    } else {
        assert(digits.drop_last().take(k) =~= digits.take(k));
        lemma_decimal_value_prefix(digits.drop_last(), k);
    }
}

/// Reads the first `end` bytes of `s` as an unsigned number.
fn parse_unsigned(s: &str, end: usize) -> (value: Option<u64>)
    requires
        s.is_ascii(),
        end <= s@.len(),
    ensures
        value == unsigned_value(s@.take(end as int)),
{
    broadcast use is_ascii_spec_bytes;

    let bytes = s.as_bytes();
    let ghost text = s@.take(end as int);
    let start: usize = if end > 0 && bytes[0] == 43 {
        1
    } else {
        0
    };
    let ghost digits = unsigned_digits(text);
    assert(digits =~= text.skip(start as int));
    if start == end {
        return None;
    }
    let mut acc: u64 = 0;
    let mut i: usize = start;
    while i < end
        invariant
            s.is_ascii(),
            bytes@ == s.spec_bytes(),
            end <= s@.len(),
            text == s@.take(end as int),
            digits == text.skip(start as int),
            digits == unsigned_digits(text),
            start <= i <= end,
            start < end,
            all_digits(digits.take(i - start)),
            acc == decimal_value(digits.take(i - start)),
        decreases end - i,
    {
        let b = bytes[i];
        let ghost c = s@[i as int];
        assert(c == digits[i - start]);
        assert(b == c as u8);
        if b < 48 || b > 57 {
            assert(!is_digit(digits[i - start]));
            return None;
        }
        let d: u64 = (b - 48) as u64;
        let ghost longer = digits.take(i - start + 1);
        assert(longer.drop_last() =~= digits.take(i - start));
        assert(longer.last() == c);
        assert(decimal_value(longer) == 10 * acc + d);
        let next = match acc.checked_mul(10) {
            Some(tens) => tens.checked_add(d),
            None => None,
        };
        match next {
            Some(n) => {
                acc = n;
            },
            None => {
                proof {
                    lemma_decimal_value_prefix(digits, i - start + 1);
                }
                return None;
            },
        }
        assert forall|j: int| 0 <= j < longer.len() implies is_digit(#[trigger] longer[j]) by {
            if j < i - start {
                assert(longer[j] == digits.take(i - start)[j]);
            }
        }
        i = i + 1;
    }
    assert(digits.take(i - start) =~= digits);
    Some(acc)
}

impl Device {
    /// Reads a size: a number of bytes, or under `GB` a number of gigabytes.
    ///
    /// The text must be an unsigned decimal number, which a `+` may lead, followed by
    /// nothing, by `B` or by `GB`. Anything else, and any size beyond `u64::MAX` bytes,
    /// is a [`Error::ParseError`].
    pub fn parse_size(nb: String) -> (size: Result<u64, Error>)
        ensures
            match size {
                Ok(n) => size_of(nb@) == Some(n),
                Err(e) => e == Error::ParseError && size_of(nb@) is None,
            },
    {
        let s = nb.as_str();
        if !s.is_ascii() {
            proof {
                lemma_not_ascii_is_no_size(s@);
            }
            return Err(Error::ParseError);
        }
        broadcast use is_ascii_spec_bytes;

        let bytes = s.as_bytes();
        let len = bytes.len();
        let gigabytes = len >= 2 && bytes[len - 2] == 71 && bytes[len - 1] == 66;
        let end = if gigabytes {
            len - 2
        } else if len >= 1 && bytes[len - 1] == 66 {
            len - 1
        } else {
            len
        };
        assert(gigabytes == has_gigabyte_suffix(s@));
        assert(s@.take(end as int) =~= numeric_part(s@));
        match parse_unsigned(s, end) {
            Some(n) => if gigabytes {
                match n.checked_mul(GB_SIZE) {
                    Some(bytes) => Ok(bytes),
                    None => Err(Error::ParseError),
                }
            } else {
                Ok(n)
            },
            None => Err(Error::ParseError),
        }
    }
}

/// Text with a character outside ASCII names no size.
proof fn lemma_not_ascii_is_no_size(s: Seq<char>)
    requires
        !is_ascii_chars(s),
    ensures
        size_of(s) is None,
{
    let i = choose|i: int| 0 <= i < s.len() && !('\0' <= #[trigger] s[i] <= '\u{7f}');
    let part = numeric_part(s);
    assert(i < part.len());
    assert(part[i] == s[i]);
    let digits = unsigned_digits(part);
    if digits.len() == part.len() {
        assert(!is_digit(digits[i]));
    } else {
        assert(i > 0);
        assert(digits[i - 1] == part[i]);
        assert(!is_digit(digits[i - 1]));
    }
}

/// Written out in decimal, a number is a run of digits that reads back as itself.
pub proof fn lemma_decimal_digits(n: nat)
    ensures
        decimal_digits(n).len() >= 1,
        all_digits(decimal_digits(n)),
        decimal_value(decimal_digits(n)) == n,
    decreases n,
{
    let digits = decimal_digits(n);
    if n < 10 {
        assert(digits.drop_last() =~= Seq::<char>::empty());
        assert(decimal_value(digits) == 10 * decimal_value(digits.drop_last()) + digit_value(
            digits.last(),
        ));
    } else {
        lemma_decimal_digits(n / 10);
        assert(digits.drop_last() =~= decimal_digits(n / 10));
        assert forall|i: int| 0 <= i < digits.len() implies is_digit(#[trigger] digits[i]) by {
            if i < digits.len() - 1 {
                assert(digits[i] == decimal_digits(n / 10)[i]);
            }
        }
    }
}

/// A number of bytes written in decimal, with no unit, is read as that number.
pub proof fn lemma_plain_number(n: nat)
    requires
        n <= u64::MAX,
    ensures
        size_of(decimal_digits(n)) == Some(n as u64),
{
    lemma_decimal_digits(n);
    let s = decimal_digits(n);
    assert(is_digit(s[s.len() - 1]));
    assert(is_digit(s[0]));
}

/// Under the unit `B` a number is read as it stands: the unit multiplies by nothing.
pub proof fn lemma_number_of_bytes(n: nat)
    requires
        n <= u64::MAX,
    ensures
        size_of(decimal_digits(n) + seq!['B']) == Some(n as u64),
{
    lemma_decimal_digits(n);
    let digits = decimal_digits(n);
    let s = digits + seq!['B'];
    assert(is_digit(digits[digits.len() - 1]));
    assert(is_digit(digits[0]));
    assert(s[s.len() - 2] == digits[digits.len() - 1]);
    assert(s.take(s.len() - 1) =~= digits);
}

/// Under the unit `GB` a number is read as so many times 2^30 bytes.
pub proof fn lemma_number_of_gigabytes(n: nat)
    requires
        n * GB_SIZE <= u64::MAX,
    ensures
        size_of(decimal_digits(n) + seq!['G', 'B']) == Some((n * GB_SIZE) as u64),
{
    lemma_decimal_digits(n);
    let digits = decimal_digits(n);
    let s = digits + seq!['G', 'B'];
    assert(is_digit(digits[0]));
    assert(s[s.len() - 2] == 'G');
    assert(s[s.len() - 1] == 'B');
    assert(s.take(s.len() - 2) =~= digits);
}

/// A size is refused if what stands before its unit is not a number: if it is empty, or
/// holds anything but digits after the `+` that may lead it.
pub proof fn lemma_not_a_number(s: Seq<char>)
    requires
        ({
            let digits = unsigned_digits(numeric_part(s));
            digits.len() == 0 || exists|i: int| 0 <= i < digits.len() && !is_digit(digits[i])
        }),
    ensures
        size_of(s) is None,
{
}

} // verus!
