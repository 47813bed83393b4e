//! Labels as one text, and due dates from text.

use vstd::prelude::*;
use vstd::string::{is_ascii_spec_bytes, StringExecFns};
use chrono::format::Parsed;
use chrono::{DateTime, Local, NaiveDateTime};
use crate::error::RusticError;
use crate::stamp::Timestamp;
use crate::store::texts;
use crate::todo_list::author::utils::is_digit;

verus! {

/// The labels as one text, with a comma between each two. Commas inside a
/// label are not escaped.
pub open spec fn comma_joined(labels: Seq<Seq<char>>) -> Seq<char>
    decreases labels.len(),
{
    if labels.len() == 0 {
        Seq::empty()
    } else if labels.len() == 1 {
        labels[0]
    } else {
        comma_joined(labels.drop_last()) + seq![','] + labels.last()
    }
}

/// Joins the labels into one text, with a comma between each two.
pub fn serialize_labels(labels: &Vec<String>) -> (joined: String)
    ensures
        joined@ == comma_joined(texts(labels@)),
{
    let ghost all = texts(labels@);
    let mut joined = String::new();
    let mut i: usize = 0;
    while i < labels.len()
        invariant
            i <= labels@.len(),
            all == texts(labels@),
            joined@ == comma_joined(all.take(i as int)),
        decreases labels@.len() - i,
    {
        proof {
            reveal_strlit(",");
            assert(all.take(i + 1).drop_last() == all.take(i as int));
        }
        if i > 0 {
            joined.append(",");
        }
        joined.append(labels[i].as_str());
        i += 1;
    }
    assert(all.take(i as int) == all);
    joined
}

/// The format under which the parser reads a due date.
pub open spec fn due_date_format() -> Seq<char> {
    "%Y-%m-%dT%H:%M:%S%z"@
}

/// What the shape of a due date allows at place `i`: `-` after the year and
/// after the month, `T` after the day, `:` between hours, minutes and
/// seconds and inside the offset, a sign before the offset, and a digit
/// everywhere else.
pub open spec fn shape_allows(i: int, c: char) -> bool {
    if i == 4 || i == 7 {
        c == '-'
    } else if i == 10 {
        c == 'T'
    } else if i == 13 || i == 16 || i == 22 {
        c == ':'
    } else if i == 19 {
        c == '+' || c == '-'
    } else {
        is_digit(c)
    }
}

/// The text has the shape of a due date, `YYYY-MM-DDTHH:MM:SS` followed by
/// `+HH:MM` or `-HH:MM`, as in `2024-06-10T16:00:00+05:30`: 25 characters,
/// each of the kind that its place asks for.
pub open spec fn has_due_date_shape(text: Seq<char>) -> bool {
    &&& text.len() == 25
    &&& forall|i: int| 0 <= i < 25 ==> shape_allows(i, #[trigger] text[i])
}

/// The time in UTC that `chrono::DateTime::parse_from_str` reads from the
/// text under the format, or nothing where it refuses the text.
pub uninterp spec fn chrono_parsed_utc(text: Seq<char>, format: Seq<char>) -> Option<
    NaiveDateTime,
>;

/// The time in UTC that a due date stands for: what the parser reads from a
/// text of the shape of a due date, and nothing for any other text or where
/// the parser finds no such date, time or offset.
pub open spec fn due_date_utc(text: Seq<char>) -> Option<NaiveDateTime> {
    if has_due_date_shape(text) {
        chrono_parsed_utc(text, due_date_format())
    } else {
        None
    }
}

/// The text is a due date.
pub open spec fn is_due_date(text: Seq<char>) -> bool {
    due_date_utc(text) is Some
}

/// Parses the text under the format with `DateTime::parse_from_str`, moves
/// the result to the local time zone with `DateTime::with_timezone`, and
/// takes it apart with `DateTime::naive_utc` and `DateTime::offset`. The time
/// in UTC is the one that `chrono_parsed_utc` names for the text, and the
/// parser fails exactly where that names none. Nothing is said of the offset,
/// which is the local one of the machine at that time.
#[verifier::external_body]
fn parse_local_time(text: &str, format: &str) -> (r: Result<Timestamp, chrono::ParseError>)
    ensures
        match r {
            Ok(at) => chrono_parsed_utc(text@, format@) == Some(at.utc),
            Err(_) => chrono_parsed_utc(text@, format@) is None,
        },
{
    DateTime::parse_from_str(text, format).map(|at| at.with_timezone(&Local)).map(
        |at| Timestamp { utc: at.naive_utc(), offset: *at.offset() },
    )
}

/// Offers a number to the parser as a month, with `Parsed::set_month` on a
/// fresh `Parsed`. The parser takes the numbers 1 to 12 and refuses every
/// other one.
#[verifier::external_body]
fn offer_month(value: i64) -> (r: Result<(), chrono::ParseError>)
    ensures
        r is Ok <==> 1 <= value <= 12,
{
    Parsed::new().set_month(value)
}

/// The error with which a text is refused that the parser would read, but
/// that has not the shape of a due date. It is the parser's own error for a
/// month that is none.
fn out_of_shape() -> chrono::ParseError {
    match offer_month(0) {
        Err(e) => e,
        Ok(_) => unreached(),
    }
}

/// Whether the place `i` of a due date may hold the ASCII character with this
/// code.
fn place_allows(i: usize, b: u8) -> (r: bool)
    ensures
        r == shape_allows(i as int, b as char),
{
    let c = b as char;
    if i == 4 || i == 7 {
        c == '-'
    } else if i == 10 {
        c == 'T'
    } else if i == 13 || i == 16 || i == 22 {
        c == ':'
    } else if i == 19 {
        c == '+' || c == '-'
    } else {
        '0' <= c && c <= '9'
    }
}

/// Checks that the text has the shape of a due date.
pub fn check_due_date_shape(date_str: &str) -> (r: bool)
    ensures
        r == has_due_date_shape(date_str@),
{
    let ghost text = date_str@;
    if !date_str.is_ascii() {
        // Whatever the shape allows at a place is an ASCII character.
        assert(has_due_date_shape(text) ==> forall|i: int|
            0 <= i < text.len() ==> shape_allows(i, #[trigger] text[i]) && '\0' <= text[i]
                <= '\u{7f}');
        return false;
    }
    let bytes = date_str.as_bytes();
    proof {
        // An ASCII text has one byte for each character.
        is_ascii_spec_bytes(date_str);
        assert(forall|i: int| 0 <= i < text.len() ==> #[trigger] text[i] == bytes@[i] as char);
    }
    if bytes.len() != 25 {
        return false;
    }
    let mut i: usize = 0;
    while i < 25
        invariant
            i <= 25,
            bytes@.len() == 25,
            text == date_str@,
            text.len() == 25,
            forall|j: int| 0 <= j < 25 ==> #[trigger] text[j] == bytes@[j] as char,
            forall|j: int| 0 <= j < i ==> shape_allows(j, #[trigger] text[j]),
        decreases 25 - i,
    {
        if !place_allows(i, bytes[i]) {
            assert(!shape_allows(i as int, text[i as int]));
            return false;
        }
        i += 1;
    }
    true
}

/// Parses a due date. A text that has not the shape of a due date, or whose
/// date, time or offset the parser does not find, is refused with
/// `DateParserError`. Every other text gives the time in UTC that it stands
/// for, with the local offset of the machine at that time.
pub fn parse_due_date(date_str: &str) -> (r: Result<Timestamp, RusticError>)
    ensures
        match due_date_utc(date_str@) {
            Some(utc) => r matches Ok(at) && at.utc == utc,
            None => r matches Err(RusticError::DateParserError(_)),
        },
{
    match parse_local_time(date_str, "%Y-%m-%dT%H:%M:%S%z") {
        Err(e) => Err(RusticError::DateParserError(e)),
        Ok(at) => {
            if check_due_date_shape(date_str) {
                Ok(at)
            } else {
                Err(RusticError::DateParserError(out_of_shape()))
            }
        },
    }
}

} // verus!
