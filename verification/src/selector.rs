//! Telling the compiler which major release of the engine was found.
//!
//! The release becomes a configuration value of the build, `yara_major`, by
//! which the code that fits that release is selected.

use vstd::prelude::*;
use vstd::string::StringExecFns;
use crate::version::{
    content_end, decimal_value, detects, is_digit, is_first_version_line, is_line,
    is_terminated_number, lemma_marker_bytes, line_content, marker_bytes, version_value,
    VersionError, CARRIAGE_RETURN, DIGIT_ZERO, NEWLINE, SEMICOLON,
};

verus! {

/// The decimal digits of `n` as bytes, the first digit weighing most, without
/// leading zeros; zero is written `0`.
pub open spec fn decimal_digits(n: nat) -> Seq<u8>
    decreases n,
{
    if n < 10 {
        seq![(DIGIT_ZERO + n) as u8]
    } else {
        decimal_digits(n / 10).push((DIGIT_ZERO + n % 10) as u8)
    }
}

/// The characters that stand for a run of digits.
pub open spec fn as_text(digits: Seq<u8>) -> Seq<char> {
    digits.map_values(|byte: u8| byte as char)
}

/// What is written is read back: the digits of `n` are digits, and their
/// value is `n`.
pub proof fn lemma_decimal_round_trip(n: nat)
    ensures
        decimal_digits(n).len() >= 1,
        forall|i: int|
            0 <= i < decimal_digits(n).len() ==> is_digit(#[trigger] decimal_digits(n)[i]),
        decimal_value(decimal_digits(n)) == n,
    decreases n,
{
    let digits = decimal_digits(n);
    if n < 10 {
        assert(digits.drop_last() == Seq::<u8>::empty());
        assert(decimal_value(digits.drop_last()) == 0);
    } else {
        lemma_decimal_round_trip(n / 10);
        assert(digits.drop_last() == decimal_digits(n / 10));
    }
}

/// One decimal digit as a text.
fn digit_text(digit: u32) -> (text: &'static str)
    requires
        digit < 10,
    ensures
        text@ == as_text(seq![(DIGIT_ZERO + digit) as u8]),
{
    let text = match digit {
        0 => "0",
        1 => "1",
        2 => "2",
        3 => "3",
        4 => "4",
        5 => "5",
        6 => "6",
        7 => "7",
        8 => "8",
        _ => "9",
    };
    proof {
        reveal_strlit("0");
        reveal_strlit("1");
        reveal_strlit("2");
        reveal_strlit("3");
        reveal_strlit("4");
        reveal_strlit("5");
        reveal_strlit("6");
        reveal_strlit("7");
        reveal_strlit("8");
        reveal_strlit("9");
        assert(text@ =~= as_text(seq![(DIGIT_ZERO + digit) as u8]));
    }
    text
}

/// Writes `n` in decimal digits.
pub fn decimal_string(n: u32) -> (text: String)
    ensures
        text@ == as_text(decimal_digits(n as nat)),
    decreases n,
{
    if n < 10 {
        String::from_str(digit_text(n))
    } else {
        let mut text = decimal_string(n / 10);
        text.append(digit_text(n % 10));
        proof {
            let last = seq![(DIGIT_ZERO + n % 10) as u8];
            assert(decimal_digits(n as nat) =~= decimal_digits((n / 10) as nat) + last);
            assert(as_text(decimal_digits(n as nat)) =~= as_text(decimal_digits((n / 10) as nat))
                + as_text(last));
        }
        text
    }
}

/// The directive that sets `yara_major` to the release `major`.
pub open spec fn selector_line(major: nat) -> Seq<char> {
    "cargo:rustc-cfg=yara_major=\""@ + as_text(decimal_digits(major)) + "\""@
}

/// Words the directive that sets `yara_major` to the release `major`.
pub fn selector_directive(major: u32) -> (line: String)
    ensures
        line@ == selector_line(major as nat),
{
    let mut line = String::from_str("cargo:rustc-cfg=yara_major=\"");
    let digits = decimal_string(major);
    line.append(digits.as_str());
    line.append("\"");
    line
}

/// Whether `rest` may follow a line: it is empty, or it begins with a line
/// ending.
pub open spec fn begins_after_line(rest: Seq<u8>) -> bool {
    ||| rest.len() == 0
    ||| rest[0] == NEWLINE
    ||| (rest.len() >= 2 && rest[0] == CARRIAGE_RETURN && rest[1] == NEWLINE)
}

/// What is written is detected: in a text whose first line is the marker,
/// the digits of `major` and a semicolon, detection finds `major`, whatever
/// lines follow.
pub proof fn lemma_written_release_is_detected(major: u32, rest: Seq<u8>)
    requires
        begins_after_line(rest),
    ensures
        detects(
            marker_bytes() + decimal_digits(major as nat) + seq![SEMICOLON] + rest,
            Ok(major),
        ),
{
    let marker = marker_bytes();
    let digits = decimal_digits(major as nat);
    let value = digits + seq![SEMICOLON];
    let line = marker + value;
    let text = line + rest;
    assert(text == marker + digits + seq![SEMICOLON] + rest);
    lemma_marker_bytes();
    lemma_decimal_round_trip(major as nat);
    let width: int = line.len() as int;
    let end: int = if rest.len() > 0 && rest[0] == CARRIAGE_RETURN {
        width + 1
    } else {
        width
    };
    assert forall|i: int| 0 <= i < end implies text[i] != NEWLINE by {
        if i < 34 {
            assert(text[i] == marker[i]);
        } else if i < 34 + digits.len() {
            assert(text[i] == digits[i - 34]);
            assert(is_digit(digits[i - 34]));
        }
    }
    assert(end == text.len() || text[end] == NEWLINE) by {
        if rest.len() > 0 {
            assert(text[width] == rest[0]);
            if rest[0] == CARRIAGE_RETURN {
                assert(text[width + 1] == rest[1]);
            }
        }
    }
    assert(is_line(text, 0, end));
    assert(text[width - 1] == SEMICOLON);
    assert(content_end(text, 0, end) == width);
    assert(line_content(text, 0, end) == line);
    assert(marker == line.subrange(0, 34));
    assert(line.skip(34) == value);
    assert(value.drop_last() == digits);
    assert(is_terminated_number(value)) by {
        assert forall|i: int| 0 <= i < value.len() - 1 implies is_digit(#[trigger] value[i]) by {
            assert(value[i] == digits[i]);
        }
    }
    assert(version_value(value) == Ok::<u32, VersionError>(major));
    assert(is_first_version_line(text, 0, end));
}

} // verus!
