//! Field-level parsing: calendar dates from date strings and fixed-point
//! decimals from rate strings, including the documented "N.A." sentinel
//! substitution.
//!
//! The actual character-level parsing is done by the `time` and
//! `rust_decimal` crates behind trusted wrappers; what each call returns is
//! named by an uninterpreted spec function of the input alone, and the
//! cleaning rule itself is verified against those names.
use vstd::prelude::*;

use crate::error::BancaDItaliaError;
use crate::records::CalendarDate;
use crate::records::FixedDecimal;

verus! {

/// Declares `time`'s date-parsing error type, carried opaquely until it is
/// mapped into [`BancaDItaliaError::ApiError`].
#[verifier::external_type_specification]
#[verifier::external_body]
pub struct ExTimeParseError(time::error::Parse);

/// Declares `rust_decimal`'s parse error type, carried opaquely until it is
/// mapped into [`BancaDItaliaError::ConversionFailed`].
#[verifier::external_type_specification]
#[verifier::external_body]
pub struct ExDecimalError(rust_decimal::Error);

/// What trimming leading and trailing whitespace from `s` leaves.
pub uninterp spec fn trimmed_of(s: Seq<char>) -> Seq<char>;

/// The calendar date that the date parser reads from `s`, or `None` where
/// `s` is not a parsable date. The `end_of_day` anchor records whether a
/// partial input is completed to the last or to the first instant of its
/// day before the date component is taken; the provider's date semantics
/// distinguish the two, so the anchor is part of the model.
pub uninterp spec fn date_of_str(s: Seq<char>, end_of_day: bool) -> Option<(int, int, int)>;

/// The `(mantissa, scale)` pair that the decimal parser reads from `s`, or
/// `None` where `s` is not a valid base-10 decimal numeral.
pub uninterp spec fn decimal_of_str(s: Seq<char>) -> Option<(int, int)>;

/// Relies on `str::trim` from std: the result is the input without leading
/// and trailing whitespace, a function of the characters alone; a trimmed
/// string has no leading or trailing whitespace left, so trimming it again
/// changes nothing.
#[verifier::external_body]
pub(crate) fn trim_str<'a>(s: &'a str) -> (r: &'a str)
    ensures
        r@ == trimmed_of(s@),
        trimmed_of(r@) == r@,
{
    s.trim()
}

/// Relies on `str`'s `PartialEq` from std: equality of two string slices is
/// equality of their characters.
#[verifier::external_body]
pub(crate) fn str_eq(a: &str, b: &str) -> (r: bool)
    ensures
        r == (a@ == b@),
{
    a == b
}

/// Relies on `time::Date::parse` with the well-known ISO-8601 format and on
/// `time`'s date component accessors `year`, `month` and `day`: the parsed
/// calendar date is a function of the input string and of the day anchor
/// alone, and a `time::Date` always holds a real calendar date (month
/// 1..=12, day 1..=31). The anchor would disambiguate an input that carries
/// a time component; the extracted calendar date of a pure date string does
/// not depend on it, so both anchors share one parser, and the anchor stays
/// a parameter of the model because the provider's date semantics
/// distinguish them.
#[verifier::external_body]
pub(crate) fn parse_date(s: &str, end_of_day: bool) -> (r: Result<
    CalendarDate,
    time::error::Parse,
>)
    ensures
        r is Ok <==> date_of_str(s@, end_of_day) is Some,
        r is Ok ==> (r->Ok_0)@ == date_of_str(s@, end_of_day)->Some_0,
        r is Ok ==> (r->Ok_0).wf(),
{
    let _ = end_of_day;
    let d = time::Date::parse(s, &time::format_description::well_known::Iso8601::DEFAULT)?;
    Ok(CalendarDate { year: d.year(), month: u8::from(d.month()), day: d.day() })
}

/// Relies on the `Display` impl of `time::error::Parse` for the free-text
/// description of a date-parsing failure.
#[verifier::external_body]
pub(crate) fn date_error_message(e: &time::error::Parse) -> String {
    format!("{}", e)
}

/// Relies on `rust_decimal`'s `Decimal::from_str` and on its `mantissa` and
/// `scale` accessors: the parsed decimal is `mantissa / 10^scale`, a
/// function of the input string alone.
#[verifier::external_body]
pub(crate) fn decimal_from_str(s: &str) -> (r: Result<FixedDecimal, rust_decimal::Error>)
    ensures
        r is Ok <==> decimal_of_str(s@) is Some,
        r is Ok ==> (r->Ok_0)@ == decimal_of_str(s@)->Some_0,
{
    match <rust_decimal::Decimal as std::str::FromStr>::from_str(s) {
        Ok(d) => Ok(FixedDecimal { mantissa: d.mantissa(), scale: d.scale() }),
        Err(e) => Err(e),
    }
}

/// Relies on the `Display` impl of `rust_decimal::Error` for the free-text
/// description of a numeric-parse failure.
#[verifier::external_body]
pub(crate) fn decimal_error_message(e: &rust_decimal::Error) -> String {
    format!("{}", e)
}

/// The decimal-cleaning rule on an already-trimmed rate string: the literal
/// sentinel `"N.A."` stands for the value zero, and anything else is read
/// as a base-10 decimal numeral, `None` meaning the numeral is invalid.
pub open spec fn cleaned_decimal_spec(t: Seq<char>) -> Option<(int, int)> {
    if t == "N.A."@ {
        Some((0int, 0int))
    } else {
        decimal_of_str(t)
    }
}

/// The decimal-cleaning rule on the view of a raw rate string: trim first,
/// then apply [`cleaned_decimal_spec`].
pub open spec fn clean_decimal_spec(s: Seq<char>) -> Option<(int, int)> {
    cleaned_decimal_spec(trimmed_of(s))
}

/// The decimal-cleaning rule after trimming: an input equal to the "N.A."
/// sentinel yields the value zero, never an error; anything else is parsed
/// as a base-10 fixed-point decimal, an invalid numeral failing with
/// `ConversionFailed`.
pub fn decimal_of_cleaned(cleaned: &str) -> (r: Result<FixedDecimal, BancaDItaliaError>)
    ensures
        r is Ok <==> cleaned_decimal_spec(cleaned@) is Some,
        r is Ok ==> (r->Ok_0)@ == cleaned_decimal_spec(cleaned@)->Some_0,
        r is Err ==> r->Err_0 is ConversionFailed,
{
    if str_eq(cleaned, "N.A.") {
        return Ok(FixedDecimal::zero());
    }
    match decimal_from_str(cleaned) {
        Ok(d) => Ok(d),
        Err(e) => Err(BancaDItaliaError::ConversionFailed(decimal_error_message(&e))),
    }
}

/// The decimal-cleaning rule: trim the rate string, substitute zero for the
/// upstream "N.A." sentinel, and otherwise parse a base-10 fixed-point
/// decimal, failing with `ConversionFailed` on an invalid numeral.
pub fn clean_decimal(input: &str) -> (r: Result<FixedDecimal, BancaDItaliaError>)
    ensures
        r is Ok <==> clean_decimal_spec(input@) is Some,
        r is Ok ==> (r->Ok_0)@ == clean_decimal_spec(input@)->Some_0,
        r is Err ==> r->Err_0 is ConversionFailed,
{
    decimal_of_cleaned(trim_str(input))
}

} // verus!
