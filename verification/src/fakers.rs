//! Made-up field values from the English vocabulary of the `fake` crate.
//!
//! Each function draws afresh, so of most of them nothing is promised but the
//! type.

use chrono::{DateTime, Utc};
use fake::faker::chrono::en::DateTimeBetween;
use fake::faker::company::en::{Buzzword, CatchPhase, CompanyName, Industry};
use fake::faker::internet::en::{DomainSuffix, SafeEmail};
use fake::faker::lorem::en::Sentence;
use fake::faker::name::en::Name;
use fake::faker::number::en::NumberWithFormat;
use fake::Fake;
use crate::clock::CALENDAR_SPAN;
use vstd::prelude::*;

verus! {

/// `c` may stand where a number format has `symbol`: a digit from 1 to 9 for
/// `^`, any digit for `#`, the symbol itself otherwise.
pub open spec fn fills_symbol(c: char, symbol: char) -> bool {
    if symbol == '^' {
        '1' <= c <= '9'
    } else if symbol == '#' {
        '0' <= c <= '9'
    } else {
        c == symbol
    }
}

/// `text` is a number written after `format`, symbol by symbol.
pub open spec fn fills_format(text: Seq<char>, format: Seq<char>) -> bool {
    &&& text.len() == format.len()
    &&& forall|i: int| 0 <= i < format.len() ==> fills_symbol(#[trigger] text[i], format[i])
}

/// `CatchPhase` of `fake::faker::company`: a slogan.
#[verifier::external_body]
pub(crate) fn catch_phrase() -> String {
    CatchPhase().fake::<String>()
}

/// `Buzzword` of `fake::faker::company`.
#[verifier::external_body]
pub(crate) fn buzzword() -> String {
    Buzzword().fake::<String>()
}

/// `CompanyName` of `fake::faker::company`.
#[verifier::external_body]
pub(crate) fn company_name() -> String {
    CompanyName().fake::<String>()
}

/// `Industry` of `fake::faker::company`.
#[verifier::external_body]
pub(crate) fn industry() -> String {
    Industry().fake::<String>()
}

/// `DomainSuffix` of `fake::faker::internet`: a top-level domain.
#[verifier::external_body]
pub(crate) fn domain_suffix() -> String {
    DomainSuffix().fake::<String>()
}

/// `SafeEmail` of `fake::faker::internet`.
#[verifier::external_body]
pub(crate) fn safe_email() -> String {
    SafeEmail().fake::<String>()
}

/// `Name` of `fake::faker::name`: the name of a person.
#[verifier::external_body]
pub(crate) fn person_name() -> String {
    Name().fake::<String>()
}

/// `Sentence` of `fake::faker::lorem`, of at least `from` and fewer than `to`
/// words. It fails on an empty range of lengths.
#[verifier::external_body]
pub(crate) fn sentence(from: usize, to: usize) -> String
    requires
        from < to,
{
    Sentence(from..to).fake::<String>()
}

/// `NumberWithFormat` of `fake::faker::number`: the format with a digit from
/// 1 to 9 for each `^`, a digit for each `#`, and every other character kept.
#[verifier::external_body]
pub(crate) fn number_with_format(format: &'static str) -> (text: String)
    ensures
        fills_format(text@, format@),
{
    NumberWithFormat(format).fake::<String>()
}

/// `DateTimeBetween` of `fake::faker::chrono`, on instants given and taken in
/// whole seconds since the epoch. It draws a number of whole minutes that is
/// less than the minutes from `start` to `end` and adds them to `start`; it
/// fails where the two are less than a minute apart, and the instants must
/// lie in the calendar of `chrono`.
#[verifier::external_body]
pub(crate) fn datetime_between(start: i64, end: i64) -> (instant: i64)
    requires
        -CALENDAR_SPAN <= start,
        start + 60 <= end,
        end <= CALENDAR_SPAN,
    ensures
        start <= instant < end,
        (instant - start) % 60 == 0,
{
    let from = DateTime::<Utc>::from_timestamp(start, 0).unwrap();
    let until = DateTime::<Utc>::from_timestamp(end, 0).unwrap();
    DateTimeBetween(from, until).fake::<DateTime<Utc>>().timestamp()
}

} // verus!
