//! Finding the engine's major release in the text of its raw declarations.
//!
//! The declarations are read as bytes, line by line. The release is stated on
//! the first line that begins with [`VERSION_MARKER`]; what follows the marker
//! on that line has to be a decimal number and a semicolon.

use vstd::prelude::*;
use vstd::string::StringSliceAdditionalSpecFns;

verus! {

/// The text that opens the line on which the declarations state the release.
pub const VERSION_MARKER: &'static str = "pub const YR_MAJOR_VERSION: u32 = ";

pub const NEWLINE: u8 = 10;

pub const CARRIAGE_RETURN: u8 = 13;

pub const SEMICOLON: u8 = 59;

pub const DIGIT_ZERO: u8 = 48;

pub const DIGIT_NINE: u8 = 57;

/// Why no release could be read from the declarations.
#[derive(Clone, Copy, Debug, PartialEq, Eq, Structural)]
pub enum VersionError {
    /// No line begins with the marker.
    MissingLine,
    /// The first line that begins with the marker does not go on with a
    /// decimal number that fits 32 bits and a closing semicolon.
    InvalidValue,
}

/// The marker as the bytes that the declarations hold.
pub open spec fn marker_bytes() -> Seq<u8> {
    VERSION_MARKER.spec_bytes()
}

/// Whether `[start, end)` bounds a line of `text`: it begins the text or
/// follows a newline, it ends the text or stands before a newline, and it
/// holds no newline itself.
pub open spec fn is_line(text: Seq<u8>, start: int, end: int) -> bool {
    &&& 0 <= start <= end <= text.len()
    &&& (start == 0 || text[start - 1] == NEWLINE)
    &&& (end == text.len() || text[end] == NEWLINE)
    &&& forall|i: int| start <= i < end ==> text[i] != NEWLINE
}

/// Where the content of the line `[start, end)` ends: a carriage return that
/// stands directly before the line's newline belongs to the line ending.
pub open spec fn content_end(text: Seq<u8>, start: int, end: int) -> int {
    if start < end < text.len() && text[end - 1] == CARRIAGE_RETURN {
        end - 1
    } else {
        end
    }
}

/// The content of the line `[start, end)`, without its line ending.
pub open spec fn line_content(text: Seq<u8>, start: int, end: int) -> Seq<u8> {
    text.subrange(start, content_end(text, start, end))
}

/// Whether `[start, end)` bounds a line of `text` that begins with the marker.
pub open spec fn is_version_line(text: Seq<u8>, start: int, end: int) -> bool {
    &&& is_line(text, start, end)
    &&& marker_bytes().is_prefix_of(line_content(text, start, end))
}

/// Whether `[start, end)` bounds the first line of `text` that begins with
/// the marker.
pub open spec fn is_first_version_line(text: Seq<u8>, start: int, end: int) -> bool {
    &&& is_version_line(text, start, end)
    &&& forall|s: int, e: int| #[trigger] is_version_line(text, s, e) ==> start <= s
}

pub open spec fn is_digit(byte: u8) -> bool {
    DIGIT_ZERO <= byte <= DIGIT_NINE
}

/// The number that a run of decimal digits writes, the first digit weighing
/// most. The empty run writes zero.
pub open spec fn decimal_value(digits: Seq<u8>) -> nat
    decreases digits.len(),
{
    if digits.len() == 0 {
        0
    } else {
        (decimal_value(digits.drop_last()) * 10 + (digits.last() - DIGIT_ZERO)) as nat
    }
}

/// Whether `value` is one decimal digit or more, closed by a semicolon.
pub open spec fn is_terminated_number(value: Seq<u8>) -> bool {
    &&& value.len() >= 2
    &&& value.last() == SEMICOLON
    &&& forall|i: int| 0 <= i < value.len() - 1 ==> is_digit(#[trigger] value[i])
}

/// The release that the rest of a marked line states.
pub open spec fn version_value(value: Seq<u8>) -> Result<u32, VersionError> {
    if is_terminated_number(value) && decimal_value(value.drop_last()) <= u32::MAX {
        Ok(decimal_value(value.drop_last()) as u32)
    } else {
        Err(VersionError::InvalidValue)
    }
}

/// What detection owes for `text`: without a marked line, the error that says
/// so; otherwise whatever the first marked line states after the marker.
pub open spec fn detects(text: Seq<u8>, result: Result<u32, VersionError>) -> bool {
    if result == Err::<u32, VersionError>(VersionError::MissingLine) {
        forall|s: int, e: int| !#[trigger] is_version_line(text, s, e)
    } else {
        exists|s: int, e: int|
            #[trigger] is_first_version_line(text, s, e) && result == version_value(
                line_content(text, s, e).skip(marker_bytes().len() as int),
            )
    }
}

/// A run of digits writes no less than any run that it begins with.
pub proof fn lemma_decimal_value_grows(digits: Seq<u8>, n: int)
    requires
        0 <= n <= digits.len(),
        forall|i: int| 0 <= i < digits.len() ==> is_digit(#[trigger] digits[i]),
    ensures
        decimal_value(digits.take(n)) <= decimal_value(digits),
    decreases digits.len(),
{
    if n == digits.len() {
        assert(digits.take(n) == digits);
    } else {
        let shorter = digits.drop_last();
        lemma_decimal_value_grows(shorter, n);
        assert(shorter.take(n) == digits.take(n));
    }
}

/// Whether `text` begins with `prefix`.
pub fn begins_with(text: &[u8], prefix: &[u8]) -> (result: bool)
    ensures
        result == prefix@.is_prefix_of(text@),
{
    if prefix.len() > text.len() {
        return false;
    }
    let mut i: usize = 0;
    while i < prefix.len()
        invariant
            prefix.len() <= text.len(),
            i <= prefix.len(),
            forall|k: int| 0 <= k < i ==> prefix@[k] == text@[k],
        decreases prefix.len() - i,
    {
        if text[i] != prefix[i] {
            assert(text@.subrange(0, prefix@.len() as int)[i as int] != prefix@[i as int]);
            return false;
        }
        i += 1;
    }
    assert(prefix@ =~= text@.subrange(0, prefix@.len() as int));
    true
}

/// Reads the release from `value`, the rest of a marked line.
pub fn read_version_value(value: &[u8]) -> (result: Result<u32, VersionError>)
    ensures
        result == version_value(value@),
{
    let length: usize = value.len();
    if length < 2 || value[length - 1] != SEMICOLON {
        return Err(VersionError::InvalidValue);
    }
    let ghost digits = value@.drop_last();
    let count: usize = length - 1;
    let mut number: u64 = 0;
    let mut i: usize = 0;
    while i < count
        invariant
            length == value.len(),
            count == length - 1,
            i <= count,
            digits == value@.drop_last(),
            forall|k: int| 0 <= k < i ==> is_digit(#[trigger] value@[k]),
            number == decimal_value(digits.take(i as int)),
            number <= u32::MAX,
        decreases count - i,
    {
        let byte: u8 = value[i];
        if byte < DIGIT_ZERO || byte > DIGIT_NINE {
            assert(!is_digit(value@[i as int]));
            return Err(VersionError::InvalidValue);
        }
        assert(digits.take(i + 1).drop_last() == digits.take(i as int));
        assert(digits.take(i + 1).last() == byte);
        number = number * 10 + (byte - DIGIT_ZERO) as u64;
        i += 1;
        if number > u32::MAX as u64 {
            proof {
                // if the bytes that follow are digits too, the whole run
                // writes no less than the part of it read so far
                if is_terminated_number(value@) {
                    lemma_decimal_value_grows(digits, i as int);
                }
            }
            return Err(VersionError::InvalidValue);
        }
    }
    assert(digits.take(count as int) == digits);
    Ok(number as u32)
}

/// A line is known by where it starts: it ends at the first newline from
/// there on, or with the text.
pub proof fn lemma_line_end_unique(text: Seq<u8>, start: int, end: int, other: int)
    requires
        is_line(text, start, end),
        is_line(text, start, other),
    ensures
        end == other,
{
    if end < other {
        assert(text[end] == NEWLINE);
    } else if other < end {
        assert(text[other] == NEWLINE);
    }
}

/// No line starts inside another: after the start of the line `[start, end)`
/// the next line starts past `end`.
pub proof fn lemma_next_line_start(text: Seq<u8>, start: int, end: int, s: int, e: int)
    requires
        is_line(text, start, end),
        is_line(text, s, e),
        start < s,
    ensures
        end < s,
{
    assert(text[s - 1] == NEWLINE);
}

/// Finds the engine's major release in the text of its raw declarations.
///
/// The release is read from the first line that begins with the marker. The
/// result is `MissingLine` exactly when no line begins with it, and
/// `InvalidValue` exactly when the first such line does not go on with a
/// decimal number that fits 32 bits and a semicolon.
pub fn detect_major_version(artifact: &[u8]) -> (result: Result<u32, VersionError>)
    ensures
        detects(artifact@, result),
{
    let marker: &[u8] = VERSION_MARKER.as_bytes();
    let ghost text = artifact@;
    let length: usize = artifact.len();
    let mut start: usize = 0;
    loop
        invariant
            text == artifact@,
            length == text.len(),
            marker@ == marker_bytes(),
            start <= length,
            start == 0 || text[start - 1] == NEWLINE,
            forall|s: int, e: int| #[trigger] is_version_line(text, s, e) ==> start <= s,
        decreases length - start,
    {
        let mut end: usize = start;
        while end < length && artifact[end] != NEWLINE
            invariant
                text == artifact@,
                length == text.len(),
                start <= end <= length,
                forall|i: int| start <= i < end ==> text[i] != NEWLINE,
            decreases length - end,
        {
            end += 1;
        }
        assert(is_line(text, start as int, end as int));
        let stop: usize = if start < end && end < length && artifact[end - 1]
            == CARRIAGE_RETURN {
            end - 1
        } else {
            end
        };
        assert(stop == content_end(text, start as int, end as int));
        let line: &[u8] = &artifact[start..stop];
        if begins_with(line, marker) {
            assert(is_first_version_line(text, start as int, end as int));
            let value: &[u8] = &artifact[start + marker.len()..stop];
            assert(value@ == line@.skip(marker_bytes().len() as int));
            return read_version_value(value);
        }
        assert forall|s: int, e: int| #[trigger] is_version_line(text, s, e) implies end < s by {
            if s == start {
                lemma_line_end_unique(text, s, e, end as int);
            } else {
                lemma_next_line_start(text, start as int, end as int, s, e);
            }
        }
        if end == length {
            return Err(VersionError::MissingLine);
        }
        start = end + 1;
    }
}

/// Detection has one answer: whatever two results it may give for one text
/// are the same result.
pub proof fn lemma_detection_unique(
    text: Seq<u8>,
    first: Result<u32, VersionError>,
    second: Result<u32, VersionError>,
)
    requires
        detects(text, first),
        detects(text, second),
    ensures
        first == second,
{
    let missing = Err::<u32, VersionError>(VersionError::MissingLine);
    if first != missing && second != missing {
        let (s1, e1) = choose|s: int, e: int|
            #[trigger] is_first_version_line(text, s, e) && first == version_value(
                line_content(text, s, e).skip(marker_bytes().len() as int),
            );
        let (s2, e2) = choose|s: int, e: int|
            #[trigger] is_first_version_line(text, s, e) && second == version_value(
                line_content(text, s, e).skip(marker_bytes().len() as int),
            );
        assert(is_version_line(text, s1, e1));
        assert(is_version_line(text, s2, e2));
        assert(s1 == s2);
        lemma_line_end_unique(text, s1, e1, e2);
    } else if first != missing {
        let (s1, e1) = choose|s: int, e: int|
            #[trigger] is_first_version_line(text, s, e) && first == version_value(
                line_content(text, s, e).skip(marker_bytes().len() as int),
            );
        assert(is_version_line(text, s1, e1));
    } else if second != missing {
        let (s2, e2) = choose|s: int, e: int|
            #[trigger] is_first_version_line(text, s, e) && second == version_value(
                line_content(text, s, e).skip(marker_bytes().len() as int),
            );
        assert(is_version_line(text, s2, e2));
    }
}

/// The marker is thirty-four bytes long and holds no newline.
pub proof fn lemma_marker_bytes()
    ensures
        marker_bytes().len() == 34,
        forall|i: int| 0 <= i < 34 ==> #[trigger] marker_bytes()[i] != NEWLINE,
{
    reveal_strlit("pub const YR_MAJOR_VERSION: u32 = ");
    let text = VERSION_MARKER@;
    assert(text.len() == 34);
    assert(vstd::string::is_ascii(VERSION_MARKER));
    vstd::string::is_ascii_spec_bytes(VERSION_MARKER);
    assert forall|i: int| 0 <= i < 34 implies #[trigger] marker_bytes()[i] != NEWLINE by {
        assert(marker_bytes()[i] == text[i] as u8);
    }
}

} // verus!
