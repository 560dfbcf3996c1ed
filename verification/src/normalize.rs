//! The domain normalizers: the narrowing conversion from API-shaped records
//! (dates and rates as strings) to domain records (calendar dates and
//! fixed-point decimals).
//!
//! Two instantiations of one design: the currency normalizer parses validity
//! dates with the end-of-day anchor, the exchange-rate normalizer parses
//! reference dates with the start-of-day anchor and runs both rate strings
//! through the decimal-cleaning rule. Both are all-or-nothing: the first
//! record that fails to convert aborts the call.
use vstd::prelude::*;
use vstd::assert_seqs_equal;

use crate::error::BancaDItaliaError;
use crate::parsing::clean_decimal;
use crate::parsing::clean_decimal_spec;
use crate::parsing::date_error_message;
use crate::parsing::date_of_str;
use crate::parsing::parse_date;
use crate::records::CountryAPI;
use crate::records::Country;
use crate::records::CurrencyAPI;
use crate::records::Currency;
use crate::records::LatestRateAPI;
use crate::records::LatestRate;

verus! {

/// Every date string of the country association parses under the end-of-day
/// anchor.
pub open spec fn country_ok(a: CountryAPI) -> bool {
    &&& date_of_str(a.validity_start_date@, true) is Some
    &&& (a.validity_end_date is Some ==> date_of_str((a.validity_end_date->Some_0)@, true)
        is Some)
}

/// The domain country association `b` is exactly the API record `a` with its
/// date strings replaced by the calendar dates they parse to.
pub open spec fn country_matches(a: CountryAPI, b: Country) -> bool {
    &&& b.currencyiso == a.currencyiso
    &&& b.country == a.country
    &&& b.countryiso == a.countryiso
    &&& Some(b.validity_start_date@) == date_of_str(a.validity_start_date@, true)
    &&& match (a.validity_end_date, b.validity_end_date) {
        (Some(s), Some(d)) => Some(d@) == date_of_str(s@, true),
        (None, None) => true,
        _ => false,
    }
}

/// Every country association of the currency converts.
pub open spec fn currency_ok(a: CurrencyAPI) -> bool {
    forall|i: int| 0 <= i < a.countries@.len() ==> country_ok(#[trigger] a.countries@[i])
}

/// The domain currency `b` is exactly the API record `a` with each country
/// association narrowed, in the order received.
pub open spec fn currency_matches(a: CurrencyAPI, b: Currency) -> bool {
    &&& b.isocode == a.isocode
    &&& b.name == a.name
    &&& b.graph == a.graph
    &&& b.countries@.len() == a.countries@.len()
    &&& forall|i: int| 0 <= i < a.countries@.len() ==> country_matches(
        #[trigger] a.countries@[i],
        #[trigger] b.countries@[i],
    )
}

/// Every record of the sequence converts.
pub open spec fn currencies_ok(s: Seq<CurrencyAPI>) -> bool {
    forall|i: int| 0 <= i < s.len() ==> currency_ok(#[trigger] s[i])
}

/// Converts one country association, parsing both validity dates with the
/// end-of-day anchor; a date that fails to parse yields `ApiError`.
pub fn normalize_country(c: &CountryAPI) -> (r: Result<Country, BancaDItaliaError>)
    ensures
        r is Ok <==> country_ok(*c),
        r is Ok ==> country_matches(*c, r->Ok_0),
        r is Err ==> r->Err_0 is ApiError,
{
    let validity_start_date = match parse_date(c.validity_start_date.as_str(), true) {
        Ok(d) => d,
        Err(e) => {
            return Err(BancaDItaliaError::ApiError(date_error_message(&e)));
        },
    };
    let validity_end_date = match &c.validity_end_date {
        Some(s) => match parse_date(s.as_str(), true) {
            Ok(d) => Some(d),
            Err(e) => {
                return Err(BancaDItaliaError::ApiError(date_error_message(&e)));
            },
        },
        None => None,
    };
    Ok(
        Country {
            currencyiso: c.currencyiso.clone(),
            country: c.country.clone(),
            countryiso: c.countryiso.clone(),
            validity_start_date,
            validity_end_date,
        },
    )
}

/// Converts one currency record by converting each of its country
/// associations in order; the first association that fails aborts the
/// conversion.
pub fn normalize_currency(cur: &CurrencyAPI) -> (r: Result<Currency, BancaDItaliaError>)
    ensures
        r is Ok <==> currency_ok(*cur),
        r is Ok ==> currency_matches(*cur, r->Ok_0),
        r is Err ==> r->Err_0 is ApiError,
{
    let mut countries: Vec<Country> = Vec::new();
    let mut j: usize = 0;
    while j < cur.countries.len()
        invariant
            j <= cur.countries@.len(),
            countries@.len() == j,
            forall|k: int| 0 <= k < j ==> country_ok(#[trigger] cur.countries@[k]),
            forall|k: int| 0 <= k < j ==> country_matches(
                #[trigger] cur.countries@[k],
                #[trigger] countries@[k],
            ),
        decreases cur.countries@.len() - j,
    {
        match normalize_country(&cur.countries[j]) {
            Ok(c) => countries.push(c),
            Err(e) => {
                return Err(e);
            },
        }
        j += 1;
    }
    Ok(
        Currency {
            countries,
            isocode: cur.isocode.clone(),
            name: cur.name.clone(),
            graph: cur.graph,
        },
    )
}

/// The currency normalizer: converts every API currency record, preserving
/// the record count and every field value exactly, except that the date
/// strings become the calendar dates they parse to under the end-of-day
/// anchor. All-or-nothing: any date string that fails to parse aborts the
/// whole call with `ApiError`.
pub fn normalize_currencies(currencies: Vec<CurrencyAPI>) -> (r: Result<
    Vec<Currency>,
    BancaDItaliaError,
>)
    ensures
        r is Ok <==> currencies_ok(currencies@),
        r is Ok ==> (r->Ok_0)@.len() == currencies@.len(),
        r is Ok ==> forall|i: int| 0 <= i < currencies@.len() ==> currency_matches(
            #[trigger] currencies@[i],
            #[trigger] (r->Ok_0)@[i],
        ),
        r is Err ==> r->Err_0 is ApiError,
{
    let mut result: Vec<Currency> = Vec::new();
    let mut i: usize = 0;
    while i < currencies.len()
        invariant
            i <= currencies@.len(),
            result@.len() == i,
            forall|k: int| 0 <= k < i ==> currency_ok(#[trigger] currencies@[k]),
            forall|k: int| 0 <= k < i ==> currency_matches(
                #[trigger] currencies@[k],
                #[trigger] result@[k],
            ),
        decreases currencies@.len() - i,
    {
        match normalize_currency(&currencies[i]) {
            Ok(c) => result.push(c),
            Err(e) => {
                return Err(e);
            },
        }
        i += 1;
    }
    Ok(result)
}

/// The reference date parses under the start-of-day anchor and both rate
/// strings pass the decimal-cleaning rule.
pub open spec fn rate_ok(a: LatestRateAPI) -> bool {
    &&& date_of_str(a.reference_date@, false) is Some
    &&& clean_decimal_spec(a.eur_rate@) is Some
    &&& clean_decimal_spec(a.usd_rate@) is Some
}

/// The domain rate record `b` is exactly the API record `a` with the
/// reference date string replaced by the calendar date it parses to and the
/// rate strings replaced by what the decimal-cleaning rule yields.
pub open spec fn rate_matches(a: LatestRateAPI, b: LatestRate) -> bool {
    &&& b.country == a.country
    &&& b.currency == a.currency
    &&& b.isocode == a.isocode
    &&& b.uiccode == a.uiccode
    &&& Some(b.eur_rate@) == clean_decimal_spec(a.eur_rate@)
    &&& Some(b.usd_rate@) == clean_decimal_spec(a.usd_rate@)
    &&& b.usd_exchange_convention == a.usd_exchange_convention
    &&& b.usd_exchange_convention_code == a.usd_exchange_convention_code
    &&& Some(b.reference_date@) == date_of_str(a.reference_date@, false)
}

/// Every record of the sequence converts.
pub open spec fn rates_ok(s: Seq<LatestRateAPI>) -> bool {
    forall|i: int| 0 <= i < s.len() ==> rate_ok(#[trigger] s[i])
}

/// Which error kind a failing rate record produces: a bad reference date is
/// wrapped as `ApiError`, otherwise the first bad rate string yields
/// `ConversionFailed`.
pub open spec fn rate_fail_matches(a: LatestRateAPI, e: BancaDItaliaError) -> bool {
    if date_of_str(a.reference_date@, false) is None {
        e is ApiError
    } else {
        e is ConversionFailed
    }
}

/// Converts one latest-rates record: the reference date is parsed with the
/// start-of-day anchor and both rates go through the decimal-cleaning rule.
pub fn normalize_rate(rate: &LatestRateAPI) -> (r: Result<LatestRate, BancaDItaliaError>)
    ensures
        r is Ok <==> rate_ok(*rate),
        r is Ok ==> rate_matches(*rate, r->Ok_0),
        r is Err ==> rate_fail_matches(*rate, r->Err_0),
{
    let reference_date = match parse_date(rate.reference_date.as_str(), false) {
        Ok(d) => d,
        Err(e) => {
            return Err(BancaDItaliaError::ApiError(date_error_message(&e)));
        },
    };
    let eur_rate = match clean_decimal(rate.eur_rate.as_str()) {
        Ok(d) => d,
        Err(e) => {
            return Err(e);
        },
    };
    let usd_rate = match clean_decimal(rate.usd_rate.as_str()) {
        Ok(d) => d,
        Err(e) => {
            return Err(e);
        },
    };
    Ok(
        LatestRate {
            country: rate.country.clone(),
            currency: rate.currency.clone(),
            isocode: rate.isocode.clone(),
            uiccode: rate.uiccode.clone(),
            eur_rate,
            usd_rate,
            usd_exchange_convention: rate.usd_exchange_convention.clone(),
            usd_exchange_convention_code: rate.usd_exchange_convention_code.clone(),
            reference_date,
        },
    )
}

/// The exchange-rate normalizer: converts every API rate record, preserving
/// the record count and every field value exactly, except that the
/// reference date string becomes the calendar date it parses to under the
/// start-of-day anchor and the rate strings become what the
/// decimal-cleaning rule yields. All-or-nothing: the first record that
/// fails to convert aborts the whole call, with the error kind of its first
/// failing field.
pub fn normalize_rates(latest_rates: Vec<LatestRateAPI>) -> (r: Result<
    Vec<LatestRate>,
    BancaDItaliaError,
>)
    ensures
        r is Ok <==> rates_ok(latest_rates@),
        r is Ok ==> (r->Ok_0)@.len() == latest_rates@.len(),
        r is Ok ==> forall|i: int| 0 <= i < latest_rates@.len() ==> rate_matches(
            #[trigger] latest_rates@[i],
            #[trigger] (r->Ok_0)@[i],
        ),
        r is Err ==> exists|i: int|
            0 <= i < latest_rates@.len() && !rate_ok(#[trigger] latest_rates@[i]) && (forall|
                j: int,
            | 0 <= j < i ==> rate_ok(#[trigger] latest_rates@[j])) && rate_fail_matches(
                latest_rates@[i],
                r->Err_0,
            ),
{
    let mut result: Vec<LatestRate> = Vec::new();
    let mut i: usize = 0;
    while i < latest_rates.len()
        invariant
            i <= latest_rates@.len(),
            result@.len() == i,
            forall|k: int| 0 <= k < i ==> rate_ok(#[trigger] latest_rates@[k]),
            forall|k: int| 0 <= k < i ==> rate_matches(
                #[trigger] latest_rates@[k],
                #[trigger] result@[k],
            ),
        decreases latest_rates@.len() - i,
    {
        match normalize_rate(&latest_rates[i]) {
            Ok(rec) => result.push(rec),
            Err(e) => {
                proof {
                    assert(!rate_ok(latest_rates@[i as int]));
                }
                return Err(e);
            },
        }
        i += 1;
    }
    Ok(result)
}

/// Two domain currencies are field-wise equal: same isocode, name, graph
/// flag and country associations.
pub open spec fn currency_same(x: Currency, y: Currency) -> bool {
    &&& x.isocode == y.isocode
    &&& x.name == y.name
    &&& x.graph == y.graph
    &&& x.countries@ == y.countries@
}

/// Law: the currency normalizer is deterministic. Any two normalized
/// sequences obtained from the same API records — for instance from two
/// fetches of an unchanged upstream dataset — are field-wise equal.
pub proof fn lemma_normalize_currencies_deterministic(
    api: Seq<CurrencyAPI>,
    r1: Seq<Currency>,
    r2: Seq<Currency>,
)
    requires
        r1.len() == api.len(),
        r2.len() == api.len(),
        forall|i: int| 0 <= i < api.len() ==> currency_matches(#[trigger] api[i], #[trigger] r1[i]),
        forall|i: int| 0 <= i < api.len() ==> currency_matches(#[trigger] api[i], #[trigger] r2[i]),
    ensures
        r1.len() == r2.len(),
        forall|i: int| 0 <= i < r1.len() ==> currency_same(#[trigger] r1[i], #[trigger] r2[i]),
{
    assert forall|i: int| 0 <= i < r1.len() implies currency_same(#[trigger] r1[i], #[trigger] r2[i]) by {
        assert(currency_matches(api[i], r1[i]));
        assert(currency_matches(api[i], r2[i]));
        assert forall|k: int| 0 <= k < r1[i].countries@.len() implies r1[i].countries@[k]
            == r2[i].countries@[k] by {
            assert(country_matches(api[i].countries@[k], r1[i].countries@[k]));
            assert(country_matches(api[i].countries@[k], r2[i].countries@[k]));
        }
        assert_seqs_equal!(r1[i].countries@ == r2[i].countries@);
    }
}

/// Law: the exchange-rate normalizer is deterministic. Any two normalized
/// sequences obtained from the same API records are equal record for
/// record.
pub proof fn lemma_normalize_rates_deterministic(
    api: Seq<LatestRateAPI>,
    r1: Seq<LatestRate>,
    r2: Seq<LatestRate>,
)
    requires
        r1.len() == api.len(),
        r2.len() == api.len(),
        forall|i: int| 0 <= i < api.len() ==> rate_matches(#[trigger] api[i], #[trigger] r1[i]),
        forall|i: int| 0 <= i < api.len() ==> rate_matches(#[trigger] api[i], #[trigger] r2[i]),
    ensures
        r1.len() == r2.len(),
        forall|i: int| 0 <= i < r1.len() ==> #[trigger] r1[i] == #[trigger] r2[i],
{
    assert forall|i: int| 0 <= i < r1.len() implies #[trigger] r1[i] == #[trigger] r2[i] by {
        assert(rate_matches(api[i], r1[i]));
        assert(rate_matches(api[i], r2[i]));
    }
}

} // verus!
