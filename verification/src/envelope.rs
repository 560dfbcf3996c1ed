//! The envelope extractor and the structural decoders.
//!
//! A provider response is a JSON object with the result array under a known
//! top-level key. Extraction fails with `NoResult` (an expected empty-dataset
//! condition) where the key is absent or not an array, and the structural
//! decoders fail with `DeserializeFailed` where an element does not match the
//! expected field set — all-or-nothing, never a partial list. The JSON values
//! themselves are navigated through `serde_json` behind trusted accessors;
//! what each accessor returns is a pure function of the value, named by an
//! uninterpreted spec function, and every decoding contract is an exact
//! statement over those names.
use vstd::prelude::*;
use vstd::string::StringExecFns;

use crate::error::BancaDItaliaError;
use crate::normalize::country_matches;
use crate::normalize::country_ok;
use crate::normalize::currency_matches;
use crate::normalize::currency_ok;
use crate::normalize::normalize_currencies;
use crate::normalize::normalize_rates;
use crate::normalize::rate_matches;
use crate::normalize::rate_ok;
use crate::parsing::clean_decimal_spec;
use crate::parsing::date_of_str;
use crate::records::Country;
use crate::records::CountryAPI;
use crate::records::Currency;
use crate::records::CurrencyAPI;
use crate::records::LatestRate;
use crate::records::LatestRateAPI;

verus! {

/// Declares `serde_json`'s JSON document type, carried opaquely and read
/// only through the trusted accessors below.
#[verifier::external_type_specification]
#[verifier::external_body]
pub struct ExJsonValue(serde_json::Value);

/// The member of the JSON object `v` under `key`, or `None` where `v` is no
/// object or has no such member; what `serde_json::Value::get` returns, a
/// function of the value and the key alone.
pub uninterp spec fn json_member(v: serde_json::Value, key: Seq<char>) -> Option<
    serde_json::Value,
>;

/// The elements of the JSON array `v`, or `None` for any other kind of
/// value; what `serde_json::Value::as_array` returns, a function of the
/// value alone.
pub uninterp spec fn json_array_elems(v: serde_json::Value) -> Option<Seq<serde_json::Value>>;

/// The text of the JSON string `v`, or `None` for any other kind of value;
/// what `serde_json::Value::as_str` returns, a function of the value alone.
pub uninterp spec fn json_text(v: serde_json::Value) -> Option<Seq<char>>;

/// The value of the JSON boolean `v`, or `None` for any other kind of
/// value; what `serde_json::Value::as_bool` returns, a function of the
/// value alone.
pub uninterp spec fn json_boolean(v: serde_json::Value) -> Option<bool>;

/// Whether `v` is JSON null; what `serde_json::Value::is_null` returns, a
/// function of the value alone.
pub uninterp spec fn json_null(v: serde_json::Value) -> bool;

/// Relies on `serde_json::Value::get`: looks a key up in a JSON object,
/// `None` where the value is no object or has no such member.
#[verifier::external_body]
fn json_get<'a>(v: &'a serde_json::Value, key: &str) -> (r: Option<&'a serde_json::Value>)
    ensures
        r is Some <==> json_member(*v, key@) is Some,
        r is Some ==> *(r->Some_0) == json_member(*v, key@)->Some_0,
{
    v.get(key)
}

/// Relies on `serde_json::Value::as_array`: the element vector of a JSON
/// array, `None` for any other kind of value.
#[verifier::external_body]
fn json_as_array<'a>(v: &'a serde_json::Value) -> (r: Option<&'a Vec<serde_json::Value>>)
    ensures
        r is Some <==> json_array_elems(*v) is Some,
        r is Some ==> (r->Some_0)@ == json_array_elems(*v)->Some_0,
{
    v.as_array()
}

/// Relies on `serde_json::Value::as_str`: the text of a JSON string,
/// `None` for any other kind of value.
#[verifier::external_body]
fn json_as_str<'a>(v: &'a serde_json::Value) -> (r: Option<&'a str>)
    ensures
        r is Some <==> json_text(*v) is Some,
        r is Some ==> (r->Some_0)@ == json_text(*v)->Some_0,
{
    v.as_str()
}

/// Relies on `serde_json::Value::as_bool`: the value of a JSON boolean,
/// `None` for any other kind of value.
#[verifier::external_body]
fn json_as_bool(v: &serde_json::Value) -> (r: Option<bool>)
    ensures
        r == json_boolean(*v),
{
    v.as_bool()
}

/// Relies on `serde_json::Value::is_null`: whether the value is JSON null.
#[verifier::external_body]
fn json_is_null(v: &serde_json::Value) -> (r: bool)
    ensures
        r == json_null(*v),
{
    v.is_null()
}

/// The text of the member of `v` under `key`: `Some` exactly where the
/// member exists and is a JSON string.
pub open spec fn member_text(v: serde_json::Value, key: Seq<char>) -> Option<Seq<char>> {
    match json_member(v, key) {
        Some(f) => json_text(f),
        None => None,
    }
}

/// The boolean value of the member of `v` under `key`: `Some` exactly
/// where the member exists and is a JSON boolean.
pub open spec fn member_bool(v: serde_json::Value, key: Seq<char>) -> Option<bool> {
    match json_member(v, key) {
        Some(f) => json_boolean(f),
        None => None,
    }
}

/// An optional string member is well-shaped: absent, null, or a JSON
/// string.
pub open spec fn opt_member_ok(v: serde_json::Value, key: Seq<char>) -> bool {
    match json_member(v, key) {
        Some(f) => json_null(f) || json_text(f) is Some,
        None => true,
    }
}

/// The text of an optional string member: absent and null both read as
/// `None`, a JSON string as its text. Meaningful where [`opt_member_ok`]
/// holds.
pub open spec fn opt_member_text(v: serde_json::Value, key: Seq<char>) -> Option<Seq<char>> {
    match json_member(v, key) {
        Some(f) => if json_null(f) {
            None
        } else {
            json_text(f)
        },
        None => None,
    }
}

/// The view of an optional string, for relating decoded optional fields to
/// their document members.
pub open spec fn opt_text_view(o: Option<String>) -> Option<Seq<char>> {
    match o {
        Some(s) => Some(s@),
        None => None,
    }
}

/// The elements of the result array of document `doc` under the top-level
/// `key`: `Some` exactly where the key holds a JSON array.
pub open spec fn doc_elems(doc: serde_json::Value, key: Seq<char>) -> Option<
    Seq<serde_json::Value>,
> {
    match json_member(doc, key) {
        Some(f) => json_array_elems(f),
        None => None,
    }
}

/// A structural-mismatch description naming the offending field.
fn mismatch_message(expected: &str, key: &str) -> String {
    let mut m = String::from_str(expected);
    m.append(" field: ");
    m.append(key);
    m
}

/// Reads a required string member: present and a JSON string, anything else
/// is a structural mismatch.
fn required_string(v: &serde_json::Value, key: &str) -> (r: Result<String, BancaDItaliaError>)
    ensures
        r is Ok <==> member_text(*v, key@) is Some,
        r is Ok ==> Some((r->Ok_0)@) == member_text(*v, key@),
        r is Err ==> r->Err_0 is DeserializeFailed,
{
    match json_get(v, key) {
        Some(field) => match json_as_str(field) {
            Some(s) => Ok(s.to_owned()),
            None => Err(
                BancaDItaliaError::DeserializeFailed(mismatch_message("expected string", key)),
            ),
        },
        None => Err(BancaDItaliaError::DeserializeFailed(mismatch_message("missing", key))),
    }
}

/// Reads an optional string member: absent or JSON null is `None`, a JSON
/// string is `Some`, anything else is a structural mismatch.
fn optional_string(v: &serde_json::Value, key: &str) -> (r: Result<
    Option<String>,
    BancaDItaliaError,
>)
    ensures
        r is Ok <==> opt_member_ok(*v, key@),
        r is Ok ==> opt_text_view(r->Ok_0) == opt_member_text(*v, key@),
        r is Err ==> r->Err_0 is DeserializeFailed,
{
    match json_get(v, key) {
        Some(field) => {
            if json_is_null(field) {
                Ok(None)
            } else {
                match json_as_str(field) {
                    Some(s) => Ok(Some(s.to_owned())),
                    None => Err(
                        BancaDItaliaError::DeserializeFailed(
                            mismatch_message("expected string", key),
                        ),
                    ),
                }
            }
        },
        None => Ok(None),
    }
}

/// Reads a required boolean member: present and a JSON boolean, anything
/// else is a structural mismatch.
fn required_bool(v: &serde_json::Value, key: &str) -> (r: Result<bool, BancaDItaliaError>)
    ensures
        r is Ok <==> member_bool(*v, key@) is Some,
        r is Ok ==> Some(r->Ok_0) == member_bool(*v, key@),
        r is Err ==> r->Err_0 is DeserializeFailed,
{
    match json_get(v, key) {
        Some(field) => match json_as_bool(field) {
            Some(b) => Ok(b),
            None => Err(
                BancaDItaliaError::DeserializeFailed(mismatch_message("expected boolean", key)),
            ),
        },
        None => Err(BancaDItaliaError::DeserializeFailed(mismatch_message("missing", key))),
    }
}

/// A `countries` element has the expected field set: required strings
/// `currencyISO`, `country` and `validityStartDate`, optional strings
/// `countryISO` and `validityEndDate`.
pub open spec fn country_decodes(v: serde_json::Value) -> bool {
    &&& member_text(v, "currencyISO"@) is Some
    &&& member_text(v, "country"@) is Some
    &&& opt_member_ok(v, "countryISO"@)
    &&& member_text(v, "validityStartDate"@) is Some
    &&& opt_member_ok(v, "validityEndDate"@)
}

/// The API-shaped country record `r` holds exactly the member texts of the
/// element `v`.
pub open spec fn country_decode_matches(v: serde_json::Value, r: CountryAPI) -> bool {
    &&& Some(r.currencyiso@) == member_text(v, "currencyISO"@)
    &&& Some(r.country@) == member_text(v, "country"@)
    &&& opt_text_view(r.countryiso) == opt_member_text(v, "countryISO"@)
    &&& Some(r.validity_start_date@) == member_text(v, "validityStartDate"@)
    &&& opt_text_view(r.validity_end_date) == opt_member_text(v, "validityEndDate"@)
}

/// A decodable `countries` element whose date strings also parse under the
/// end-of-day anchor.
pub open spec fn country_elem_converts(v: serde_json::Value) -> bool {
    &&& country_decodes(v)
    &&& date_of_str(member_text(v, "validityStartDate"@)->Some_0, true) is Some
    &&& (opt_member_text(v, "validityEndDate"@) matches Some(s) ==> date_of_str(s, true) is Some)
}

/// The domain country association `c` is exactly the element `v` with its
/// member texts carried over and its date strings parsed under the
/// end-of-day anchor.
pub open spec fn country_elem_result(v: serde_json::Value, c: Country) -> bool {
    &&& Some(c.currencyiso@) == member_text(v, "currencyISO"@)
    &&& Some(c.country@) == member_text(v, "country"@)
    &&& opt_text_view(c.countryiso) == opt_member_text(v, "countryISO"@)
    &&& Some(c.validity_start_date@) == date_of_str(
        member_text(v, "validityStartDate"@)->Some_0,
        true,
    )
    &&& match (opt_member_text(v, "validityEndDate"@), c.validity_end_date) {
        (Some(s), Some(d)) => Some(d@) == date_of_str(s, true),
        (None, None) => true,
        _ => false,
    }
}

/// Every element of a `countries` array decodes.
pub open spec fn all_countries_decode(es: Seq<serde_json::Value>) -> bool {
    forall|k: int| 0 <= k < es.len() ==> country_decodes(#[trigger] es[k])
}

/// The decoded records hold exactly the member texts of the elements, in
/// order.
pub open spec fn countries_decode_match(es: Seq<serde_json::Value>, rs: Seq<CountryAPI>) -> bool {
    &&& rs.len() == es.len()
    &&& forall|k: int| 0 <= k < es.len() ==> country_decode_matches(#[trigger] es[k], rs[k])
}

/// Every element of a `countries` array decodes and converts.
pub open spec fn all_countries_convert(es: Seq<serde_json::Value>) -> bool {
    forall|k: int| 0 <= k < es.len() ==> country_elem_converts(#[trigger] es[k])
}

/// The domain country associations are exactly the converted elements, in
/// order.
pub open spec fn countries_result_match(es: Seq<serde_json::Value>, cs: Seq<Country>) -> bool {
    &&& cs.len() == es.len()
    &&& forall|k: int| 0 <= k < es.len() ==> country_elem_result(#[trigger] es[k], cs[k])
}

/// The elements of the nested `countries` array of a currency element:
/// `Some` exactly where the member exists and is a JSON array.
pub open spec fn currency_countries_elems(v: serde_json::Value) -> Option<
    Seq<serde_json::Value>,
> {
    match json_member(v, "countries"@) {
        Some(f) => json_array_elems(f),
        None => None,
    }
}

/// A `currencies` element has the expected field set: required string
/// `isoCode` and `name`, required boolean `graph`, and a `countries` array
/// each of whose elements decodes.
pub open spec fn currency_decodes(v: serde_json::Value) -> bool {
    &&& member_text(v, "isoCode"@) is Some
    &&& member_text(v, "name"@) is Some
    &&& member_bool(v, "graph"@) is Some
    &&& currency_countries_elems(v) is Some
    &&& all_countries_decode(currency_countries_elems(v)->Some_0)
}

/// The API-shaped currency record `r` holds exactly the member texts,
/// boolean and decoded country elements of `v`.
pub open spec fn currency_decode_matches(v: serde_json::Value, r: CurrencyAPI) -> bool {
    &&& Some(r.isocode@) == member_text(v, "isoCode"@)
    &&& Some(r.name@) == member_text(v, "name"@)
    &&& Some(r.graph) == member_bool(v, "graph"@)
    &&& currency_countries_elems(v) is Some
    &&& countries_decode_match(currency_countries_elems(v)->Some_0, r.countries@)
}

/// A decodable `currencies` element all of whose country elements also
/// convert.
pub open spec fn currency_elem_converts(v: serde_json::Value) -> bool {
    &&& currency_decodes(v)
    &&& all_countries_convert(currency_countries_elems(v)->Some_0)
}

/// The domain currency `c` is exactly the element `v` with its member texts
/// carried over and every nested country element converted, in order.
pub open spec fn currency_elem_result(v: serde_json::Value, c: Currency) -> bool {
    &&& Some(c.isocode@) == member_text(v, "isoCode"@)
    &&& Some(c.name@) == member_text(v, "name"@)
    &&& Some(c.graph) == member_bool(v, "graph"@)
    &&& currency_countries_elems(v) is Some
    &&& countries_result_match(currency_countries_elems(v)->Some_0, c.countries@)
}

/// Every element of the `currencies` result array decodes.
pub open spec fn all_currencies_decode(es: Seq<serde_json::Value>) -> bool {
    forall|i: int| 0 <= i < es.len() ==> currency_decodes(#[trigger] es[i])
}

/// The decoded records are exactly the elements, in order.
pub open spec fn currencies_decode_match(
    es: Seq<serde_json::Value>,
    rs: Seq<CurrencyAPI>,
) -> bool {
    &&& rs.len() == es.len()
    &&& forall|i: int| 0 <= i < es.len() ==> currency_decode_matches(#[trigger] es[i], rs[i])
}

/// Every element of the `currencies` result array decodes and converts.
pub open spec fn all_currencies_convert(es: Seq<serde_json::Value>) -> bool {
    forall|i: int| 0 <= i < es.len() ==> currency_elem_converts(#[trigger] es[i])
}

/// The domain currencies are exactly the converted elements, in order.
pub open spec fn currencies_result_match(es: Seq<serde_json::Value>, cs: Seq<Currency>) -> bool {
    &&& cs.len() == es.len()
    &&& forall|i: int| 0 <= i < es.len() ==> currency_elem_result(#[trigger] es[i], cs[i])
}

/// A `latestRates` element has the expected field set: nine required
/// string members.
pub open spec fn rate_decodes(v: serde_json::Value) -> bool {
    &&& member_text(v, "country"@) is Some
    &&& member_text(v, "currency"@) is Some
    &&& member_text(v, "isoCode"@) is Some
    &&& member_text(v, "uicCode"@) is Some
    &&& member_text(v, "eurRate"@) is Some
    &&& member_text(v, "usdRate"@) is Some
    &&& member_text(v, "usdExchangeConvention"@) is Some
    &&& member_text(v, "usdExchangeConventionCode"@) is Some
    &&& member_text(v, "referenceDate"@) is Some
}

/// The API-shaped rate record `r` holds exactly the member texts of the
/// element `v`.
pub open spec fn rate_decode_matches(v: serde_json::Value, r: LatestRateAPI) -> bool {
    &&& Some(r.country@) == member_text(v, "country"@)
    &&& Some(r.currency@) == member_text(v, "currency"@)
    &&& Some(r.isocode@) == member_text(v, "isoCode"@)
    &&& Some(r.uiccode@) == member_text(v, "uicCode"@)
    &&& Some(r.eur_rate@) == member_text(v, "eurRate"@)
    &&& Some(r.usd_rate@) == member_text(v, "usdRate"@)
    &&& Some(r.usd_exchange_convention@) == member_text(v, "usdExchangeConvention"@)
    &&& Some(r.usd_exchange_convention_code@) == member_text(v, "usdExchangeConventionCode"@)
    &&& Some(r.reference_date@) == member_text(v, "referenceDate"@)
}

/// A decodable `latestRates` element whose reference date parses under the
/// start-of-day anchor and whose rate strings pass the decimal-cleaning
/// rule.
pub open spec fn rate_elem_converts(v: serde_json::Value) -> bool {
    &&& rate_decodes(v)
    &&& date_of_str(member_text(v, "referenceDate"@)->Some_0, false) is Some
    &&& clean_decimal_spec(member_text(v, "eurRate"@)->Some_0) is Some
    &&& clean_decimal_spec(member_text(v, "usdRate"@)->Some_0) is Some
}

/// The domain rate record `b` is exactly the element `v` with its member
/// texts carried over, the reference date parsed under the start-of-day
/// anchor and the rate strings cleaned.
pub open spec fn rate_elem_result(v: serde_json::Value, b: LatestRate) -> bool {
    &&& Some(b.country@) == member_text(v, "country"@)
    &&& Some(b.currency@) == member_text(v, "currency"@)
    &&& Some(b.isocode@) == member_text(v, "isoCode"@)
    &&& Some(b.uiccode@) == member_text(v, "uicCode"@)
    &&& Some(b.eur_rate@) == clean_decimal_spec(member_text(v, "eurRate"@)->Some_0)
    &&& Some(b.usd_rate@) == clean_decimal_spec(member_text(v, "usdRate"@)->Some_0)
    &&& Some(b.usd_exchange_convention@) == member_text(v, "usdExchangeConvention"@)
    &&& Some(b.usd_exchange_convention_code@) == member_text(v, "usdExchangeConventionCode"@)
    &&& Some(b.reference_date@) == date_of_str(member_text(v, "referenceDate"@)->Some_0, false)
}

/// Every element of the `latestRates` result array decodes.
pub open spec fn all_rates_decode(es: Seq<serde_json::Value>) -> bool {
    forall|i: int| 0 <= i < es.len() ==> rate_decodes(#[trigger] es[i])
}

/// The decoded records are exactly the elements, in order.
pub open spec fn rates_decode_match(es: Seq<serde_json::Value>, rs: Seq<LatestRateAPI>) -> bool {
    &&& rs.len() == es.len()
    &&& forall|i: int| 0 <= i < es.len() ==> rate_decode_matches(#[trigger] es[i], rs[i])
}

/// Every element of the `latestRates` result array decodes and converts.
pub open spec fn all_rates_convert(es: Seq<serde_json::Value>) -> bool {
    forall|i: int| 0 <= i < es.len() ==> rate_elem_converts(#[trigger] es[i])
}

/// The domain rate records are exactly the converted elements, in order.
pub open spec fn rates_result_match(es: Seq<serde_json::Value>, bs: Seq<LatestRate>) -> bool {
    &&& bs.len() == es.len()
    &&& forall|i: int| 0 <= i < es.len() ==> rate_elem_result(#[trigger] es[i], bs[i])
}

/// A country record that holds exactly the member texts of an element
/// converts if and only if the element does.
proof fn lemma_country_bridge(v: serde_json::Value, a: CountryAPI)
    requires
        country_decodes(v),
        country_decode_matches(v, a),
    ensures
        country_ok(a) <==> country_elem_converts(v),
{
}

/// Composition of decode and normalization for one country element.
proof fn lemma_country_result(v: serde_json::Value, a: CountryAPI, b: Country)
    requires
        country_decode_matches(v, a),
        country_matches(a, b),
    ensures
        country_elem_result(v, b),
{
}

/// A currency record that holds exactly the members of an element converts
/// if and only if the element does.
proof fn lemma_currency_bridge(v: serde_json::Value, a: CurrencyAPI)
    requires
        currency_decodes(v),
        currency_decode_matches(v, a),
    ensures
        currency_ok(a) <==> currency_elem_converts(v),
{
    let es = currency_countries_elems(v)->Some_0;
    if currency_ok(a) {
        assert forall|k: int| 0 <= k < es.len() implies country_elem_converts(#[trigger] es[k]) by {
            lemma_country_bridge(es[k], a.countries@[k]);
        }
    }
    if currency_elem_converts(v) {
        assert forall|k: int|
            0 <= k < a.countries@.len() implies country_ok(#[trigger] a.countries@[k]) by {
            lemma_country_bridge(es[k], a.countries@[k]);
        }
    }
}

/// Composition of decode and normalization for one currency element.
proof fn lemma_currency_result(v: serde_json::Value, a: CurrencyAPI, b: Currency)
    requires
        currency_decode_matches(v, a),
        currency_matches(a, b),
    ensures
        currency_elem_result(v, b),
{
    let es = currency_countries_elems(v)->Some_0;
    assert forall|k: int|
        0 <= k < es.len() implies country_elem_result(#[trigger] es[k], b.countries@[k]) by {
        lemma_country_result(es[k], a.countries@[k], b.countries@[k]);
    }
}

/// A rate record that holds exactly the member texts of an element converts
/// if and only if the element does.
proof fn lemma_rate_bridge(v: serde_json::Value, a: LatestRateAPI)
    requires
        rate_decode_matches(v, a),
    ensures
        rate_ok(a) <==> rate_elem_converts(v),
{
}

/// Composition of decode and normalization for one rate element.
proof fn lemma_rate_result(v: serde_json::Value, a: LatestRateAPI, b: LatestRate)
    requires
        rate_decode_matches(v, a),
        rate_matches(a, b),
    ensures
        rate_elem_result(v, b),
{
}

/// Decodes one element of a `countries` array into its API-shaped record:
/// succeeds exactly where the element has the expected field set, and then
/// returns exactly the member texts.
pub fn decode_country(v: &serde_json::Value) -> (r: Result<CountryAPI, BancaDItaliaError>)
    ensures
        r is Ok <==> country_decodes(*v),
        r is Ok ==> country_decode_matches(*v, r->Ok_0),
        r is Err ==> r->Err_0 is DeserializeFailed,
{
    let currencyiso = match required_string(v, "currencyISO") {
        Ok(s) => s,
        Err(e) => {
            return Err(e);
        },
    };
    let country = match required_string(v, "country") {
        Ok(s) => s,
        Err(e) => {
            return Err(e);
        },
    };
    let countryiso = match optional_string(v, "countryISO") {
        Ok(o) => o,
        Err(e) => {
            return Err(e);
        },
    };
    let validity_start_date = match required_string(v, "validityStartDate") {
        Ok(s) => s,
        Err(e) => {
            return Err(e);
        },
    };
    let validity_end_date = match optional_string(v, "validityEndDate") {
        Ok(o) => o,
        Err(e) => {
            return Err(e);
        },
    };
    Ok(CountryAPI { currencyiso, country, countryiso, validity_start_date, validity_end_date })
}

/// Decodes one element of the `currencies` array into its API-shaped
/// record, including every element of its nested `countries` array:
/// succeeds exactly where the element has the expected shape, and then
/// returns exactly its members.
pub fn decode_currency(v: &serde_json::Value) -> (r: Result<CurrencyAPI, BancaDItaliaError>)
    ensures
        r is Ok <==> currency_decodes(*v),
        r is Ok ==> currency_decode_matches(*v, r->Ok_0),
        r is Err ==> r->Err_0 is DeserializeFailed,
{
    let isocode = match required_string(v, "isoCode") {
        Ok(s) => s,
        Err(e) => {
            return Err(e);
        },
    };
    let name = match required_string(v, "name") {
        Ok(s) => s,
        Err(e) => {
            return Err(e);
        },
    };
    let graph = match required_bool(v, "graph") {
        Ok(b) => b,
        Err(e) => {
            return Err(e);
        },
    };
    let countries_value = match json_get(v, "countries") {
        Some(f) => f,
        None => {
            return Err(
                BancaDItaliaError::DeserializeFailed(mismatch_message("missing", "countries")),
            );
        },
    };
    let elements = match json_as_array(countries_value) {
        Some(a) => a,
        None => {
            return Err(
                BancaDItaliaError::DeserializeFailed(
                    mismatch_message("expected array", "countries"),
                ),
            );
        },
    };
    let ghost es = currency_countries_elems(*v)->Some_0;
    let mut countries: Vec<CountryAPI> = Vec::new();
    let mut j: usize = 0;
    while j < elements.len()
        invariant
            j <= elements@.len(),
            elements@ == es,
            currency_countries_elems(*v) == Some(es),
            countries@.len() == j,
            forall|k: int| 0 <= k < j ==> country_decodes(#[trigger] es[k]),
            forall|k: int| 0 <= k < j ==> country_decode_matches(
                #[trigger] es[k],
                countries@[k],
            ),
        decreases elements@.len() - j,
    {
        match decode_country(&elements[j]) {
            Ok(c) => countries.push(c),
            Err(e) => {
                proof {
                    assert(!country_decodes(es[j as int]));
                }
                return Err(e);
            },
        }
        j += 1;
    }
    Ok(CurrencyAPI { countries, isocode, name, graph })
}

/// Decodes one element of the `latestRates` array into its API-shaped
/// record: succeeds exactly where the element has the nine required string
/// members, and then returns exactly their texts.
pub fn decode_latest_rate(v: &serde_json::Value) -> (r: Result<LatestRateAPI, BancaDItaliaError>)
    ensures
        r is Ok <==> rate_decodes(*v),
        r is Ok ==> rate_decode_matches(*v, r->Ok_0),
        r is Err ==> r->Err_0 is DeserializeFailed,
{
    let country = match required_string(v, "country") {
        Ok(s) => s,
        Err(e) => {
            return Err(e);
        },
    };
    let currency = match required_string(v, "currency") {
        Ok(s) => s,
        Err(e) => {
            return Err(e);
        },
    };
    let isocode = match required_string(v, "isoCode") {
        Ok(s) => s,
        Err(e) => {
            return Err(e);
        },
    };
    let uiccode = match required_string(v, "uicCode") {
        Ok(s) => s,
        Err(e) => {
            return Err(e);
        },
    };
    let eur_rate = match required_string(v, "eurRate") {
        Ok(s) => s,
        Err(e) => {
            return Err(e);
        },
    };
    let usd_rate = match required_string(v, "usdRate") {
        Ok(s) => s,
        Err(e) => {
            return Err(e);
        },
    };
    let usd_exchange_convention = match required_string(v, "usdExchangeConvention") {
        Ok(s) => s,
        Err(e) => {
            return Err(e);
        },
    };
    let usd_exchange_convention_code = match required_string(v, "usdExchangeConventionCode") {
        Ok(s) => s,
        Err(e) => {
            return Err(e);
        },
    };
    let reference_date = match required_string(v, "referenceDate") {
        Ok(s) => s,
        Err(e) => {
            return Err(e);
        },
    };
    Ok(
        LatestRateAPI {
            country,
            currency,
            isocode,
            uiccode,
            eur_rate,
            usd_rate,
            usd_exchange_convention,
            usd_exchange_convention_code,
            reference_date,
        },
    )
}

/// The envelope extractor: the result array under the named top-level key.
/// Succeeds exactly where the key holds a JSON array, returning exactly its
/// elements; an absent key, a non-object document and a non-array value are
/// all the expected empty-dataset condition `NoResult` — never a structural
/// mismatch.
pub fn extract_array<'a>(doc: &'a serde_json::Value, key: &str) -> (r: Result<
    &'a Vec<serde_json::Value>,
    BancaDItaliaError,
>)
    ensures
        r is Ok <==> doc_elems(*doc, key@) is Some,
        r is Ok ==> (r->Ok_0)@ == doc_elems(*doc, key@)->Some_0,
        r is Err ==> r->Err_0 is NoResult,
{
    match json_get(doc, key) {
        Some(field) => match json_as_array(field) {
            Some(a) => Ok(a),
            None => Err(BancaDItaliaError::NoResult),
        },
        None => Err(BancaDItaliaError::NoResult),
    }
}

/// Decodes every element of the `currencies` result array, all-or-nothing:
/// succeeds exactly where every element matches the expected shape, and
/// then returns exactly the decoded elements in order; one bad element
/// fails the whole call with `DeserializeFailed`.
pub fn decode_currency_elements(elements: &Vec<serde_json::Value>) -> (r: Result<
    Vec<CurrencyAPI>,
    BancaDItaliaError,
>)
    ensures
        r is Ok <==> all_currencies_decode(elements@),
        r is Ok ==> currencies_decode_match(elements@, (r->Ok_0)@),
        r is Err ==> r->Err_0 is DeserializeFailed,
{
    let mut records: Vec<CurrencyAPI> = Vec::new();
    let mut i: usize = 0;
    while i < elements.len()
        invariant
            i <= elements@.len(),
            records@.len() == i,
            forall|k: int| 0 <= k < i ==> currency_decodes(#[trigger] elements@[k]),
            forall|k: int| 0 <= k < i ==> currency_decode_matches(
                #[trigger] elements@[k],
                records@[k],
            ),
        decreases elements@.len() - i,
    {
        match decode_currency(&elements[i]) {
            Ok(rec) => records.push(rec),
            Err(e) => {
                return Err(e);
            },
        }
        i += 1;
    }
    Ok(records)
}

/// Decodes every element of the `latestRates` result array,
/// all-or-nothing: succeeds exactly where every element matches the
/// expected shape, and then returns exactly the decoded elements in order.
pub fn decode_rate_elements(elements: &Vec<serde_json::Value>) -> (r: Result<
    Vec<LatestRateAPI>,
    BancaDItaliaError,
>)
    ensures
        r is Ok <==> all_rates_decode(elements@),
        r is Ok ==> rates_decode_match(elements@, (r->Ok_0)@),
        r is Err ==> r->Err_0 is DeserializeFailed,
{
    let mut records: Vec<LatestRateAPI> = Vec::new();
    let mut i: usize = 0;
    while i < elements.len()
        invariant
            i <= elements@.len(),
            records@.len() == i,
            forall|k: int| 0 <= k < i ==> rate_decodes(#[trigger] elements@[k]),
            forall|k: int| 0 <= k < i ==> rate_decode_matches(
                #[trigger] elements@[k],
                records@[k],
            ),
        decreases elements@.len() - i,
    {
        match decode_latest_rate(&elements[i]) {
            Ok(rec) => records.push(rec),
            Err(e) => {
                return Err(e);
            },
        }
        i += 1;
    }
    Ok(records)
}

/// Two domain country associations hold the same data, view for view.
pub open spec fn country_fields_eq(x: Country, y: Country) -> bool {
    &&& x.currencyiso@ == y.currencyiso@
    &&& x.country@ == y.country@
    &&& opt_text_view(x.countryiso) == opt_text_view(y.countryiso)
    &&& x.validity_start_date == y.validity_start_date
    &&& x.validity_end_date == y.validity_end_date
}

/// Two domain currencies hold the same data, view for view.
pub open spec fn currency_fields_eq(x: Currency, y: Currency) -> bool {
    &&& x.isocode@ == y.isocode@
    &&& x.name@ == y.name@
    &&& x.graph == y.graph
    &&& x.countries@.len() == y.countries@.len()
    &&& forall|k: int| 0 <= k < x.countries@.len() ==> country_fields_eq(
        #[trigger] x.countries@[k],
        #[trigger] y.countries@[k],
    )
}

/// Two domain rate records hold the same data, view for view.
pub open spec fn rate_fields_eq(x: LatestRate, y: LatestRate) -> bool {
    &&& x.country@ == y.country@
    &&& x.currency@ == y.currency@
    &&& x.isocode@ == y.isocode@
    &&& x.uiccode@ == y.uiccode@
    &&& x.eur_rate == y.eur_rate
    &&& x.usd_rate == y.usd_rate
    &&& x.usd_exchange_convention@ == y.usd_exchange_convention@
    &&& x.usd_exchange_convention_code@ == y.usd_exchange_convention_code@
    &&& x.reference_date == y.reference_date
}

/// Law: the currencies pipeline is a function of the document. Two
/// successful results obtained from one element sequence — for instance
/// from two fetches of an unchanged upstream dataset — are field-wise
/// equal, record for record.
pub proof fn lemma_currencies_document_deterministic(
    es: Seq<serde_json::Value>,
    r1: Seq<Currency>,
    r2: Seq<Currency>,
)
    requires
        currencies_result_match(es, r1),
        currencies_result_match(es, r2),
    ensures
        r1.len() == r2.len(),
        forall|i: int| 0 <= i < r1.len() ==> currency_fields_eq(#[trigger] r1[i], #[trigger] r2[i]),
{
    assert forall|i: int|
        0 <= i < r1.len() implies currency_fields_eq(#[trigger] r1[i], #[trigger] r2[i]) by {
        assert(currency_elem_result(es[i], r1[i]));
        assert(currency_elem_result(es[i], r2[i]));
        let ces = currency_countries_elems(es[i])->Some_0;
        assert forall|k: int|
            0 <= k < r1[i].countries@.len() implies country_fields_eq(
            #[trigger] r1[i].countries@[k],
            #[trigger] r2[i].countries@[k],
        ) by {
            assert(country_elem_result(ces[k], r1[i].countries@[k]));
            assert(country_elem_result(ces[k], r2[i].countries@[k]));
        }
    }
}

/// Law: the latest-rates pipeline is a function of the document. Two
/// successful results obtained from one element sequence are field-wise
/// equal, record for record.
pub proof fn lemma_rates_document_deterministic(
    es: Seq<serde_json::Value>,
    r1: Seq<LatestRate>,
    r2: Seq<LatestRate>,
)
    requires
        rates_result_match(es, r1),
        rates_result_match(es, r2),
    ensures
        r1.len() == r2.len(),
        forall|i: int| 0 <= i < r1.len() ==> rate_fields_eq(#[trigger] r1[i], #[trigger] r2[i]),
{
    assert forall|i: int|
        0 <= i < r1.len() implies rate_fields_eq(#[trigger] r1[i], #[trigger] r2[i]) by {
        assert(rate_elem_result(es[i], r1[i]));
        assert(rate_elem_result(es[i], r2[i]));
    }
}

/// The whole in-memory currencies pipeline on one fetched JSON document:
/// extract the `currencies` array, decode each element structurally, and
/// normalize. The outcome is a partition over the document: no array under
/// the key is exactly `NoResult`; a structurally bad element is exactly
/// `DeserializeFailed`; a bad date string is exactly `ApiError`; otherwise
/// the call succeeds and the result is exactly the converted elements, in
/// order.
pub fn currencies_from_document(doc: &serde_json::Value) -> (r: Result<
    Vec<Currency>,
    BancaDItaliaError,
>)
    ensures
        (r is Err && r->Err_0 is NoResult) <==> doc_elems(*doc, "currencies"@) is None,
        (r is Err && r->Err_0 is DeserializeFailed) <==> (doc_elems(*doc, "currencies"@) is Some
            && !all_currencies_decode(doc_elems(*doc, "currencies"@)->Some_0)),
        (r is Err && r->Err_0 is ApiError) <==> (doc_elems(*doc, "currencies"@) is Some
            && all_currencies_decode(doc_elems(*doc, "currencies"@)->Some_0)
            && !all_currencies_convert(doc_elems(*doc, "currencies"@)->Some_0)),
        r is Ok <==> (doc_elems(*doc, "currencies"@) is Some && all_currencies_decode(
            doc_elems(*doc, "currencies"@)->Some_0,
        ) && all_currencies_convert(doc_elems(*doc, "currencies"@)->Some_0)),
        r is Ok ==> currencies_result_match(doc_elems(*doc, "currencies"@)->Some_0, (r->Ok_0)@),
{
    let elements = match extract_array(doc, "currencies") {
        Ok(a) => a,
        Err(e) => {
            return Err(e);
        },
    };
    let ghost es = doc_elems(*doc, "currencies"@)->Some_0;
    let api_records = match decode_currency_elements(elements) {
        Ok(recs) => recs,
        Err(e) => {
            return Err(e);
        },
    };
    let ghost api_seq = api_records@;
    match normalize_currencies(api_records) {
        Ok(result) => {
            proof {
                assert forall|i: int|
                    0 <= i < es.len() implies currency_elem_converts(#[trigger] es[i]) by {
                    lemma_currency_bridge(es[i], api_seq[i]);
                }
                assert forall|i: int|
                    0 <= i < es.len() implies currency_elem_result(
                    #[trigger] es[i],
                    result@[i],
                ) by {
                    lemma_currency_result(es[i], api_seq[i], result@[i]);
                }
            }
            Ok(result)
        },
        Err(e) => {
            proof {
                assert(!all_currencies_convert(es)) by {
                    if all_currencies_convert(es) {
                        assert forall|i: int|
                            0 <= i < api_seq.len() implies currency_ok(
                            #[trigger] api_seq[i],
                        ) by {
                            lemma_currency_bridge(es[i], api_seq[i]);
                        }
                    }
                }
            }
            Err(e)
        },
    }
}

/// The whole in-memory latest-rates pipeline on one fetched JSON document:
/// extract the `latestRates` array, decode each element structurally, and
/// normalize. The outcome is a partition over the document: no array under
/// the key is exactly `NoResult`; a structurally bad element is exactly
/// `DeserializeFailed`; a record whose date or rate strings fail conversion
/// is exactly an `ApiError` or `ConversionFailed`; otherwise the call
/// succeeds and the result is exactly the converted elements, in order.
pub fn latest_rates_from_document(doc: &serde_json::Value) -> (r: Result<
    Vec<LatestRate>,
    BancaDItaliaError,
>)
    ensures
        (r is Err && r->Err_0 is NoResult) <==> doc_elems(*doc, "latestRates"@) is None,
        (r is Err && r->Err_0 is DeserializeFailed) <==> (doc_elems(*doc, "latestRates"@) is Some
            && !all_rates_decode(doc_elems(*doc, "latestRates"@)->Some_0)),
        (r is Err && (r->Err_0 is ApiError || r->Err_0 is ConversionFailed)) <==> (doc_elems(
            *doc,
            "latestRates"@,
        ) is Some && all_rates_decode(doc_elems(*doc, "latestRates"@)->Some_0) && !all_rates_convert(
            doc_elems(*doc, "latestRates"@)->Some_0,
        )),
        r is Ok <==> (doc_elems(*doc, "latestRates"@) is Some && all_rates_decode(
            doc_elems(*doc, "latestRates"@)->Some_0,
        ) && all_rates_convert(doc_elems(*doc, "latestRates"@)->Some_0)),
        r is Ok ==> rates_result_match(doc_elems(*doc, "latestRates"@)->Some_0, (r->Ok_0)@),
{
    let elements = match extract_array(doc, "latestRates") {
        Ok(a) => a,
        Err(e) => {
            return Err(e);
        },
    };
    let ghost es = doc_elems(*doc, "latestRates"@)->Some_0;
    let api_records = match decode_rate_elements(elements) {
        Ok(recs) => recs,
        Err(e) => {
            return Err(e);
        },
    };
    let ghost api_seq = api_records@;
    match normalize_rates(api_records) {
        Ok(result) => {
            proof {
                assert forall|i: int|
                    0 <= i < es.len() implies rate_elem_converts(#[trigger] es[i]) by {
                    lemma_rate_bridge(es[i], api_seq[i]);
                }
                assert forall|i: int|
                    0 <= i < es.len() implies rate_elem_result(#[trigger] es[i], result@[i]) by {
                    lemma_rate_result(es[i], api_seq[i], result@[i]);
                }
            }
            Ok(result)
        },
        Err(e) => {
            proof {
                assert(!all_rates_convert(es)) by {
                    if all_rates_convert(es) {
                        assert forall|i: int|
                            0 <= i < api_seq.len() implies rate_ok(#[trigger] api_seq[i]) by {
                            lemma_rate_bridge(es[i], api_seq[i]);
                        }
                    }
                }
            }
            Err(e)
        },
    }
}

} // verus!
