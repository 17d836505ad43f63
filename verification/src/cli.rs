//! The text the command prints: the battery line, the version line and the
//! messages for failures that carry numbers.

use vstd::prelude::*;

use crate::discovery::Discovery;
use crate::hidpp::{BatteryStatus, ProtocolError};

verus! {

pub const PACKAGE_NAME: &'static str = "gbat";

pub const PACKAGE_VERSION: &'static str = "1.0.0";

/// Printed when no interface answered for any candidate device index.
pub const NOT_FOUND_MESSAGE: &'static str = "No responsive Logitech HID++ interface found. Connect the GPW2 through its LIGHTSPEED receiver or USB, wake it, and retry.";

/// Printed when a receiver answered but has no connected mouse.
pub const OFFLINE_MESSAGE: &'static str = "The receiver reports no connected mouse. Turn it on or move it, and retry.";

/// Printed when neither battery feature yielded a status.
pub const NO_READING_MESSAGE: &'static str = "Could not read battery level. Wake the mouse up and retry.";

/// The highest battery level the command reports.
pub const MAX_LEVEL: u8 = 100;

pub open spec fn spec_digit(d: nat) -> char {
    if d == 0 {
        '0'
    } else if d == 1 {
        '1'
    } else if d == 2 {
        '2'
    } else if d == 3 {
        '3'
    } else if d == 4 {
        '4'
    } else if d == 5 {
        '5'
    } else if d == 6 {
        '6'
    } else if d == 7 {
        '7'
    } else if d == 8 {
        '8'
    } else {
        '9'
    }
}

/// The decimal digits of `n`, most significant first, without leading
/// zeros.
pub open spec fn spec_decimal(n: nat) -> Seq<char>
    decreases n,
{
    if n < 10 {
        seq![spec_digit(n)]
    } else {
        spec_decimal(n / 10).push(spec_digit(n % 10))
    }
}

/// The level the command shows: readings above 100 are shown as 100.
pub open spec fn spec_shown_level(level: u8) -> u8 {
    if level < MAX_LEVEL { level } else { MAX_LEVEL }
}

pub open spec fn spec_status_line(status: BatteryStatus) -> Seq<char> {
    "Battery: "@ + spec_decimal(spec_shown_level(status.level) as nat) + "%"@ + if status.charging {
        " (charging)"@
    } else {
        Seq::<char>::empty()
    }
}

/// The number a character stands for as a decimal digit: its code less
/// the code of `0`.
pub open spec fn spec_digit_value(c: char) -> int {
    (c as u32) as int - 48
}

/// A character that is a decimal digit, `0` to `9`.
pub open spec fn spec_is_digit_char(c: char) -> bool {
    48 <= (c as u32) && (c as u32) <= 57
}

/// The number a base-10 numeral reads as, most significant digit first.
pub open spec fn spec_numeral_value(text: Seq<char>) -> int
    decreases text.len(),
{
    if text.len() == 0 {
        0
    } else {
        spec_numeral_value(text.drop_last()) * 10 + spec_digit_value(text.last())
    }
}

/// A standard base-10 numeral: at least one digit, all of them decimal
/// digits, and no leading zero unless the numeral is `0` itself.
pub open spec fn spec_is_numeral(text: Seq<char>) -> bool {
    &&& text.len() >= 1
    &&& forall|i: int| 0 <= i < text.len() ==> spec_is_digit_char(#[trigger] text[i])
    &&& text.len() > 1 ==> text[0] != '0'
}

/// Each decimal digit is written as its ASCII character: digit `d` is the
/// character with code 48 + `d`.
pub proof fn lemma_digit_is_its_ascii_character(d: nat)
    requires
        d < 10,
    ensures
        (spec_digit(d) as u32) as int == 48 + d,
        spec_digit_value(spec_digit(d)) == d,
        spec_is_digit_char(spec_digit(d)),
{
}

/// The decimal text of `n` is the standard base-10 numeral of `n`: it
/// reads back as `n`, holds only decimal digits, and starts with a zero
/// only when it is `0`.
pub proof fn lemma_decimal_reads_back(n: nat)
    ensures
        spec_is_numeral(spec_decimal(n)),
        spec_numeral_value(spec_decimal(n)) == n,
        n > 0 ==> spec_decimal(n)[0] != '0',
    decreases n,
{
    if n < 10 {
        lemma_digit_is_its_ascii_character(n);
        let text = spec_decimal(n);
        assert(text.drop_last() =~= Seq::<char>::empty());
        assert(spec_numeral_value(text) == spec_numeral_value(text.drop_last()) * 10 + spec_digit_value(text.last()));
    } else {
        lemma_decimal_reads_back(n / 10);
        lemma_digit_is_its_ascii_character(n % 10);
        let head = spec_decimal(n / 10);
        let text = spec_decimal(n);
        assert(text == head.push(spec_digit(n % 10)));
        assert(text.drop_last() =~= head);
        assert(text[0] == head[0]);
        assert forall|i: int| 0 <= i < text.len() implies spec_is_digit_char(#[trigger] text[i]) by {
            if i < head.len() {
                assert(text[i] == head[i]);
            }
        }
        assert(spec_numeral_value(text) == spec_numeral_value(head) * 10 + spec_digit_value(text.last()));
    }
}

/// The battery line is `Battery: `, then the standard base-10 numeral of
/// the level (readings above 100 shown as 100), then `%`, then
/// ` (charging)` while charging.
pub proof fn lemma_status_line_shows_the_level(status: BatteryStatus)
    ensures
        ({
            let line = spec_status_line(status);
            let suffix = if status.charging { " (charging)"@ } else { Seq::<char>::empty() };
            let end = line.len() - suffix.len() - 1;
            &&& line.subrange(0, 9) == "Battery: "@
            &&& 9 < end
            &&& line[end] == '%'
            &&& line.subrange(end + 1, line.len() as int) == suffix
            &&& spec_is_numeral(line.subrange(9, end))
            &&& spec_numeral_value(line.subrange(9, end)) == if status.level < 100 { status.level as int } else { 100 }
        }),
{
    reveal_strlit("Battery: ");
    reveal_strlit("%");
    reveal_strlit(" (charging)");
    let shown = spec_shown_level(status.level) as nat;
    lemma_decimal_reads_back(shown);
    let digits = spec_decimal(shown);
    let line = spec_status_line(status);
    let suffix = if status.charging { " (charging)"@ } else { Seq::<char>::empty() };
    let end = line.len() - suffix.len() - 1;
    assert(line == "Battery: "@ + digits + "%"@ + suffix);
    assert(end == 9 + digits.len());
    assert(line.subrange(0, 9) =~= "Battery: "@);
    assert(line.subrange(9, end) =~= digits);
    assert(line.subrange(end + 1, line.len() as int) =~= suffix);
    assert(line[end] == "%"@[0]);
}

fn digit_text(d: u64) -> (r: &'static str)
    requires
        d < 10,
    ensures
        r@ == seq![spec_digit(d as nat)],
{
    proof {
        reveal_strlit("0");
        reveal_strlit("1");
        reveal_strlit("2");
        reveal_strlit("3");
        reveal_strlit("4");
        reveal_strlit("5");
        reveal_strlit("6");
        reveal_strlit("7");
        reveal_strlit("8");
        reveal_strlit("9");
    }
    match d {
        0 => "0",
        1 => "1",
        2 => "2",
        3 => "3",
        4 => "4",
        5 => "5",
        6 => "6",
        7 => "7",
        8 => "8",
        _ => "9",
    }
}

/// Appends the decimal digits of `n` to `text`.
pub fn append_decimal(text: &mut String, n: u64)
    ensures
        final(text)@ == old(text)@ + spec_decimal(n as nat),
    decreases n,
{
    if n >= 10 {
        append_decimal(text, n / 10);
    }
    text.append(digit_text(n % 10));
    proof {
        if n >= 10 {
            assert(spec_decimal(n as nat) == spec_decimal((n / 10) as nat).push(spec_digit((n % 10) as nat)));
        }
    }
    assert(final(text)@ =~= old(text)@ + spec_decimal(n as nat));
}

/// The battery line, e.g. `Battery: 42% (charging)`.
pub fn format_status(status: BatteryStatus) -> (r: String)
    ensures
        r@ == spec_status_line(status),
{
    let level = if status.level < MAX_LEVEL { status.level } else { MAX_LEVEL };
    let mut line = String::from_str("Battery: ");
    append_decimal(&mut line, level as u64);
    line.append("%");
    if status.charging {
        line.append(" (charging)");
    }
    assert(line@ =~= spec_status_line(status));
    line
}

/// The mouse discovery found, or what the command says when it found none:
/// the offline message when a receiver reported the mouse offline, the
/// not-found message otherwise.
pub fn found_or_message<D>(discovery: Discovery<D>) -> (r: Result<D, &'static str>)
    ensures
        match discovery {
            Discovery::Found(found) => r == Ok::<D, &'static str>(found),
            Discovery::Offline => r == Err::<D, &'static str>(OFFLINE_MESSAGE),
            Discovery::NotFound => r == Err::<D, &'static str>(NOT_FOUND_MESSAGE),
        },
{
    match discovery {
        Discovery::Found(found) => Ok(found),
        Discovery::Offline => Err(OFFLINE_MESSAGE),
        Discovery::NotFound => Err(NOT_FOUND_MESSAGE),
    }
}

/// What the command prints for the outcome of a battery read: the battery
/// line for a status, and the missing-reading message, never a made-up
/// level, when neither battery feature gave one.
pub fn status_report(status: Option<BatteryStatus>) -> (r: Result<String, &'static str>)
    ensures
        match status {
            Some(status) => r matches Ok(line) && line@ == spec_status_line(status),
            None => r == Err::<String, &'static str>(NO_READING_MESSAGE),
        },
{
    match status {
        Some(status) => Ok(format_status(status)),
        None => Err(NO_READING_MESSAGE),
    }
}

/// The version line, e.g. `gbat 1.0.0`.
pub fn version_text() -> (r: String)
    ensures
        r@ == PACKAGE_NAME@ + " "@ + PACKAGE_VERSION@,
{
    let mut text = String::from_str(PACKAGE_NAME);
    text.append(" ");
    text.append(PACKAGE_VERSION);
    text
}

pub open spec fn spec_protocol_error_message(error: ProtocolError) -> Seq<char> {
    match error {
        ProtocolError::ShortResponse { minimum, actual } => "short HID++ response: expected at least "@
            + spec_decimal(minimum as nat) + " bytes, got "@ + spec_decimal(actual as nat),
    }
}

impl ProtocolError {
    /// The error as a sentence.
    pub fn message(&self) -> (r: String)
        ensures
            r@ == spec_protocol_error_message(*self),
    {
        match self {
            ProtocolError::ShortResponse { minimum, actual } => {
                let mut text = String::from_str("short HID++ response: expected at least ");
                append_decimal(&mut text, *minimum as u64);
                text.append(" bytes, got ");
                append_decimal(&mut text, *actual as u64);
                text
            },
        }
    }
}

/// The message for a write the device took only part of.
pub fn short_write_message(expected: usize, actual: usize) -> (r: String)
    ensures
        r@ == "short HID++ write: expected "@ + spec_decimal(expected as nat) + " bytes, wrote "@
            + spec_decimal(actual as nat),
{
    let mut text = String::from_str("short HID++ write: expected ");
    append_decimal(&mut text, expected as u64);
    text.append(" bytes, wrote ");
    append_decimal(&mut text, actual as u64);
    text
}

} // verus!
