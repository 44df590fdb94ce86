//! Reading the programmer tool's version out of what it prints.
//!
//! The tool's report is taken as bytes. The version stands behind the last
//! occurrence of the word `version`: spaces, a decimal number, a dot, and a
//! second decimal number; what follows is not looked at. Both numbers must
//! fit in a byte.

use vstd::prelude::*;

verus! {

pub open spec fn is_digit(b: u8) -> bool {
    0x30 <= b <= 0x39
}

/// Whether the word `version` stands at `pos`.
pub open spec fn marker_at(text: Seq<u8>, pos: int) -> bool {
    &&& 0 <= pos
    &&& pos + 7 <= text.len()
    &&& text[pos] == 0x76
    &&& text[pos + 1] == 0x65
    &&& text[pos + 2] == 0x72
    &&& text[pos + 3] == 0x73
    &&& text[pos + 4] == 0x69
    &&& text[pos + 5] == 0x6f
    &&& text[pos + 6] == 0x6e
}

/// The greatest position below `limit` at which the word stands.
pub open spec fn last_marker_below(text: Seq<u8>, limit: int) -> Option<int>
    decreases limit,
{
    if limit <= 0 {
        None
    } else if marker_at(text, limit - 1) {
        Some(limit - 1)
    } else {
        last_marker_below(text, limit - 1)
    }
}

/// The first position from `start` on that holds no space.
pub open spec fn skip_spaces(text: Seq<u8>, start: int) -> int
    decreases text.len() - start,
{
    if 0 <= start < text.len() && text[start] == 0x20 {
        skip_spaces(text, start + 1)
    } else {
        start
    }
}

/// The first position from `start` on that holds no digit.
pub open spec fn digits_end(text: Seq<u8>, start: int) -> int
    decreases text.len() - start,
{
    if 0 <= start < text.len() && is_digit(text[start]) {
        digits_end(text, start + 1)
    } else {
        start
    }
}

/// The number that the digits from `start` up to `end` spell in base ten.
pub open spec fn decimal_value(text: Seq<u8>, start: int, end: int) -> nat
    decreases end - start,
{
    if start >= end {
        0
    } else {
        decimal_value(text, start, end - 1) * 10 + (text[end - 1] - 0x30) as nat
    }
}

/// The number at `start` with the position behind it: at least one digit,
/// and a value that fits in a byte.
pub open spec fn number_at(text: Seq<u8>, start: int) -> Option<(u8, int)> {
    let end = digits_end(text, start);
    if end > start && decimal_value(text, start, end) <= 255 {
        Some((decimal_value(text, start, end) as u8, end))
    } else {
        None
    }
}

/// Major and minor number at `start`, with a dot between them.
pub open spec fn version_at(text: Seq<u8>, start: int) -> Option<(u8, u8)> {
    match number_at(text, start) {
        None => None,
        Some((major, dot)) => if dot < text.len() && text[dot] == 0x2e {
            match number_at(text, dot + 1) {
                Some((minor, _)) => Some((major, minor)),
                None => None,
            }
        } else {
            None
        },
    }
}

/// The version that a report states, if it states one.
pub open spec fn reported_version(text: Seq<u8>) -> Option<(u8, u8)> {
    match last_marker_below(text, text.len() as int) {
        None => None,
        Some(pos) => version_at(text, skip_spaces(text, pos + 7)),
    }
}

fn has_marker(text: &[u8], pos: usize) -> (found: bool)
    ensures
        found == marker_at(text@, pos as int),
{
    if text.len() < 7 || pos > text.len() - 7 {
        return false;
    }
    text[pos] == 0x76 && text[pos + 1] == 0x65 && text[pos + 2] == 0x72 && text[pos + 3] == 0x73
        && text[pos + 4] == 0x69 && text[pos + 5] == 0x6f && text[pos + 6] == 0x6e
}

fn find_last_marker(text: &[u8]) -> (found: Option<usize>)
    ensures
        match found {
            Some(pos) => last_marker_below(text@, text@.len() as int) == Some(pos as int)
                && marker_at(text@, pos as int),
            None => last_marker_below(text@, text@.len() as int) is None,
        },
{
    let mut limit: usize = text.len();
    while limit > 0
        invariant
            limit <= text.len(),
            last_marker_below(text@, text@.len() as int) == last_marker_below(text@, limit as int),
        decreases limit,
    {
        if has_marker(text, limit - 1) {
            return Some(limit - 1);
        }
        limit = limit - 1;
    }
    None
}

fn skip_blank(text: &[u8], start: usize) -> (end: usize)
    requires
        start <= text.len(),
    ensures
        end as int == skip_spaces(text@, start as int),
        start <= end <= text.len(),
{
    let mut i: usize = start;
    while i < text.len() && text[i] == 0x20
        invariant
            start <= i <= text.len(),
            skip_spaces(text@, start as int) == skip_spaces(text@, i as int),
        decreases text.len() - i,
    {
        i = i + 1;
    }
    i
}

fn read_number(text: &[u8], start: usize) -> (number: Option<(u8, usize)>)
    requires
        start <= text.len(),
    ensures
        match number {
            Some((value, end)) => number_at(text@, start as int) == Some((value, end as int))
                && start < end <= text.len(),
            None => number_at(text@, start as int) is None,
        },
{
    let mut i: usize = start;
    let mut value: u32 = 0;
    let mut fits: bool = true;
    while i < text.len() && text[i] >= 0x30 && text[i] <= 0x39
        invariant
            start <= i <= text.len(),
            digits_end(text@, start as int) == digits_end(text@, i as int),
            fits ==> value == decimal_value(text@, start as int, i as int) && value <= 255,
            !fits ==> decimal_value(text@, start as int, i as int) > 255,
        decreases text.len() - i,
    {
        let digit: u32 = (text[i] - 0x30) as u32;
        assert(decimal_value(text@, start as int, i + 1) == decimal_value(
            text@,
            start as int,
            i as int,
        ) * 10 + (text@[i as int] - 0x30) as nat);
        if fits {
            value = value * 10 + digit;
            if value > 255 {
                fits = false;
            }
        }
        i = i + 1;
    }
    if i > start && fits {
        Some((value as u8, i))
    } else {
        None
    }
}

/// Reads the version out of the tool's report.
pub fn parse_version(report: &[u8]) -> (version: Option<(u8, u8)>)
    ensures
        version == reported_version(report@),
{
    match find_last_marker(report) {
        None => None,
        Some(pos) => {
            let total = report.len();
            assert(pos + 7 <= total);
            let start = skip_blank(report, pos + 7);
            match read_number(report, start) {
                None => None,
                Some((major, dot)) => {
                    if dot < report.len() && report[dot] == 0x2e {
                        match read_number(report, dot + 1) {
                            Some((minor, _)) => Some((major, minor)),
                            None => None,
                        }
                    } else {
                        None
                    }
                },
            }
        },
    }
}

} // verus!
