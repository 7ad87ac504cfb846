//! What an administrator enters to describe a jam, and how the dates in it
//! are read.

use crate::errors::HandlerError;
use vstd::prelude::*;

verus! {

/// `chrono::NaiveDateTime`, taken as it is: a moment is carried from where
/// it was read to where it is stored, and never looked into.
#[verifier::external_type_specification]
#[verifier::external_body]
pub struct ExNaiveDateTime(chrono::NaiveDateTime);

/// `chrono::ParseError`, taken as it is: it is passed on or dropped, never
/// looked into.
#[verifier::external_type_specification]
#[verifier::external_body]
pub struct ExParseError(chrono::ParseError);

/// What is appended to a date to make it a moment: the start of the day.
pub const START_OF_DAY: &'static str = " 00:00:00";

/// The format in which a date with the start of the day appended is read.
pub const MOMENT_FORMAT: &'static str = "%Y-%m-%d %H:%M:%S";

/// The form with which a jam is edited. Every field is as it was typed.
#[derive(Debug, PartialEq, Eq)]
pub struct JamFormData {
    pub title: String,
    pub slug: String,
    pub summary: String,
    pub rich_text_content: String,
    /// The day on which the jam starts, as year, month and day.
    pub start_date: String,
    /// The day on which the jam ends, as year, month and day.
    pub end_date: String,
    pub approval_state: String,
}

/// The moment that `chrono::NaiveDateTime::parse_from_str` reads from a text
/// under a format, and nothing where it reports an error.
pub uninterp spec fn parsed_moment(text: Seq<char>, format: Seq<char>) -> Option<
    chrono::NaiveDateTime,
>;

/// Calls `chrono::NaiveDateTime::parse_from_str`, which reads a moment from
/// a text under a format and depends on nothing else.
#[verifier::external_body]
fn parse_moment(text: &str, format: &str) -> (parsed: Result<
    chrono::NaiveDateTime,
    chrono::ParseError,
>)
    ensures
        match parsed {
            Ok(moment) => parsed_moment(text@, format@) == Some(moment),
            Err(_) => parsed_moment(text@, format@).is_none(),
        },
{
    chrono::NaiveDateTime::parse_from_str(text, format)
}

/// The moment at which the day `date` starts, where `date` is a day written
/// as year, month and day, and nothing where it is not.
pub open spec fn start_of(date: Seq<char>) -> Option<chrono::NaiveDateTime> {
    parsed_moment(date + START_OF_DAY@, MOMENT_FORMAT@)
}

/// Reads a day, written as year, month and day with dashes between, as the
/// moment at which that day starts.
pub fn parse_date(date: &str) -> (parsed: Result<chrono::NaiveDateTime, chrono::ParseError>)
    ensures
        match parsed {
            Ok(moment) => start_of(date@) == Some(moment),
            Err(_) => start_of(date@).is_none(),
        },
{
    let mut text = date.to_owned();
    text.append(START_OF_DAY);
    parse_moment(text.as_str(), MOMENT_FORMAT)
}

/// The two dates of a jam, once each has been read: both moments where both
/// were read, and a parse error where one was not.
pub fn schedule<E>(
    start: Result<chrono::NaiveDateTime, E>,
    end: Result<chrono::NaiveDateTime, E>,
) -> (dates: Result<(chrono::NaiveDateTime, chrono::NaiveDateTime), HandlerError>)
    ensures
        dates == match (start, end) {
            (Ok(start), Ok(end)) => Ok::<_, HandlerError>((start, end)),
            _ => Err(HandlerError::ParseError),
        },
{
    match start {
        Ok(start) => match end {
            Ok(end) => Ok((start, end)),
            Err(_) => Err(HandlerError::ParseError),
        },
        Err(_) => Err(HandlerError::ParseError),
    }
}

impl JamFormData {
    /// Reads when the jam starts and when it ends. Both days have to be
    /// dates; a form in which one is not is refused with a parse error.
    pub fn dates(&self) -> (dates: Result<
        (chrono::NaiveDateTime, chrono::NaiveDateTime),
        HandlerError,
    >)
        ensures
            dates == match (start_of(self.start_date@), start_of(self.end_date@)) {
                (Some(start), Some(end)) => Ok::<_, HandlerError>((start, end)),
                _ => Err(HandlerError::ParseError),
            },
    {
        let start = parse_date(self.start_date.as_str());
        let end = parse_date(self.end_date.as_str());
        schedule(start, end)
    }
}

} // verus!
