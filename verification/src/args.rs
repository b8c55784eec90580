//! What the command line front end reads from its arguments: durations such
//! as `11d 3h 32m 4s` and headers such as `content-type: text/plain`.

use vstd::prelude::*;
use vstd::utf8::encode_utf8;

use crate::headers::{header_name, header_name_of, header_value_of, is_header_value};
use crate::validator::Header;

verus! {

/// Whether a byte is a decimal digit.
pub open spec fn is_digit(byte: u8) -> bool {
    48 <= byte <= 57
}

/// The seconds in the unit that a byte names: `d`, `h`, `m` or `s`.
pub open spec fn unit_seconds(byte: u8) -> Option<nat> {
    if byte == 100 {
        Some(86_400nat)
    } else if byte == 104 {
        Some(3_600nat)
    } else if byte == 109 {
        Some(60nat)
    } else if byte == 115 {
        Some(1nat)
    } else {
        None
    }
}

/// The seconds that the text names from position `from` on, when the digits
/// just before that position spell `number` (`in_number` says whether there
/// are any).
///
/// A number counts if a unit follows it directly; it then adds its value in
/// that unit. Everything else in the text is passed over.
pub open spec fn seconds_from(text: Seq<u8>, from: int, number: nat, in_number: bool) -> nat
    decreases text.len() - from,
{
    if from < 0 || from >= text.len() {
        0
    } else if is_digit(text[from]) {
        seconds_from(text, from + 1, number * 10 + (text[from] - 48) as nat, true)
    } else if in_number && unit_seconds(text[from]) is Some {
        number * unit_seconds(text[from])->0 + seconds_from(text, from + 1, 0, false)
    } else {
        seconds_from(text, from + 1, 0, false)
    }
}

/// The seconds that a text names: the sum of its numbers that a unit
/// follows, each in its unit.
pub open spec fn seconds_in(text: Seq<u8>) -> nat {
    seconds_from(text, 0, 0, false)
}

/// Why a text is no duration.
#[derive(Debug, Clone, Copy, PartialEq, Eq, Structural)]
pub enum DurationError {
    /// The text names no time at all.
    NoDuration,
    /// The text names more seconds than can be counted.
    TooLarge,
}

/// What [`parse_duration`] answers for a number of seconds.
pub open spec fn duration_of(seconds: nat) -> Result<u64, DurationError> {
    if seconds == 0 {
        Err(DurationError::NoDuration)
    } else if seconds > u64::MAX {
        Err(DurationError::TooLarge)
    } else {
        Ok(seconds as u64)
    }
}

/// Parses a duration string from the CLI to a number of seconds:
/// `11d 3h 32m 4s` is 963 124 seconds.
///
/// Every number that is directly followed by `d`, `h`, `m` or `s` counts
/// in days, hours, minutes or seconds. A text that names no time, or more
/// seconds than can be counted, is refused.
pub fn parse_duration(duration: &str) -> (seconds: Result<u64, DurationError>)
    ensures
        seconds == duration_of(seconds_in(encode_utf8(duration@))),
{
    parse_duration_bytes(duration.as_bytes())
}

/// Parses a duration from the bytes of its text.
pub fn parse_duration_bytes(text: &[u8]) -> (seconds: Result<u64, DurationError>)
    ensures
        seconds == duration_of(seconds_in(text@)),
{
    let mut total: u64 = 0;
    let mut number: u64 = 0;
    let mut overflowed = false;
    let mut in_number = false;
    let ghost mut exact: nat = 0;
    let mut i: usize = 0;
    while i < text.len()
        invariant
            i <= text.len(),
            seconds_in(text@) == total + seconds_from(text@, i as int, exact, in_number),
            !overflowed ==> number == exact,
            overflowed ==> exact > u64::MAX,
            !in_number ==> exact == 0 && !overflowed,
        decreases text.len() - i,
    {
        let byte = text[i];
        if byte >= 48 && byte <= 57 {
            if !overflowed {
                let wide: u128 = number as u128 * 10 + (byte - 48) as u128;
                if wide > u64::MAX as u128 {
                    overflowed = true;
                } else {
                    number = wide as u64;
                }
            }
            proof {
                exact = exact * 10 + (byte - 48) as nat;
            }
            in_number = true;
        } else {
            let unit: u64 = if byte == 100 {
                86_400
            } else if byte == 104 {
                3_600
            } else if byte == 109 {
                60
            } else if byte == 115 {
                1
            } else {
                0
            };
            if in_number && unit != 0 {
                assert(unit_seconds(byte) == Some(unit as nat));
                let ghost rest = seconds_from(text@, i + 1, 0, false);
                assert(seconds_in(text@) == total + exact * unit + rest);
                if overflowed {
                    assert(exact * unit >= exact) by (nonlinear_arith)
                        requires
                            unit >= 1,
                    ;
                    return Err(DurationError::TooLarge);
                }
                assert(number * unit <= 0xffff_ffff_ffff_ffff * 86_400) by (nonlinear_arith)
                    requires
                        number <= 0xffff_ffff_ffff_ffff,
                        unit <= 86_400,
                ;
                let wide: u128 = number as u128 * unit as u128 + total as u128;
                if wide > u64::MAX as u128 {
                    return Err(DurationError::TooLarge);
                }
                total = wide as u64;
            } else {
                assert(!in_number || unit_seconds(byte) is None);
            }
            number = 0;
            overflowed = false;
            in_number = false;
            proof {
                exact = 0;
            }
        }
        i += 1;
    }
    if total == 0 {
        Err(DurationError::NoDuration)
    } else {
        Ok(total)
    }
}

/// Whether the separator of a header, a colon and a space, stands at the
/// position.
pub open spec fn separator_at(text: Seq<u8>, at: int) -> bool {
    0 <= at && at + 1 < text.len() && text[at] == 58 && text[at + 1] == 32
}

/// The position of the first separator in the text, if there is one.
pub fn find_separator(text: &[u8]) -> (found: Option<usize>)
    ensures
        match found {
            Some(at) => separator_at(text@, at as int) && forall|before: int|
                0 <= before < at ==> !separator_at(text@, before),
            None => forall|at: int| !separator_at(text@, at),
        },
{
    let mut i: usize = 0;
    while i < text.len()
        invariant
            i <= text.len(),
            forall|before: int| 0 <= before < i ==> !separator_at(text@, before),
        decreases text.len() - i,
    {
        if text[i] == 58 && i + 1 < text.len() && text[i + 1] == 32 {
            return Some(i);
        }
        i += 1;
    }
    None
}

/// Why a text is no header.
#[derive(Debug, Clone, Copy, PartialEq, Eq, Structural)]
pub enum HeaderError {
    /// Header value missing colon (": ").
    MissingColon,
    /// Invalid header name.
    InvalidName,
    /// Invalid header value.
    InvalidValue,
}

/// Reads a header from a text such as `content-type: text/plain`.
///
/// The name is what stands before the first colon that a space follows, and
/// the value what stands after that space. A text without such a colon is
/// refused, then a name that is no header name, then a value that is no
/// header value.
pub fn parse_header(value: &str) -> (header: Result<Header, HeaderError>)
    ensures
        parsed_header(encode_utf8(value@), header),
{
    parse_header_bytes(value.as_bytes())
}

/// Whether `header` is what the text reads as.
pub open spec fn parsed_header(text: Seq<u8>, header: Result<Header, HeaderError>) -> bool {
    if forall|at: int| !separator_at(text, at) {
        header == Err::<Header, HeaderError>(HeaderError::MissingColon)
    } else {
        exists|at: int|
            #![trigger separator_at(text, at)]
            separator_at(text, at) && (forall|before: int|
                0 <= before < at ==> !separator_at(text, before)) && {
                let name = header_name(text.subrange(0, at));
                let value = text.subrange(at + 2, text.len() as int);
                if name is None {
                    header == Err::<Header, HeaderError>(HeaderError::InvalidName)
                } else if !is_header_value(value) {
                    header == Err::<Header, HeaderError>(HeaderError::InvalidValue)
                } else {
                    header matches Ok(read) && Some(read.name@) == name && read.value@ == value
                }
            }
    }
}

/// Reads a header from the bytes of its text.
pub fn parse_header_bytes(text: &[u8]) -> (header: Result<Header, HeaderError>)
    ensures
        parsed_header(text@, header),
{
    let at = match find_separator(text) {
        Some(at) => at,
        None => return Err(HeaderError::MissingColon),
    };
    assert(separator_at(text@, at as int));
    let end = text.len();
    assert(at + 2 <= end);
    let key = vstd::slice::slice_subrange(text, 0, at);
    let rest = vstd::slice::slice_subrange(text, at + 2, end);
    let name = match header_name_of(key) {
        Some(name) => name,
        None => return Err(HeaderError::InvalidName),
    };
    let value = match header_value_of(rest) {
        Some(value) => value,
        None => return Err(HeaderError::InvalidValue),
    };
    Ok(Header { name, value })
}

} // verus!
