//! Domain records and their loosely-typed API-shaped counterparts.
//!
//! Each `*API` record mirrors one element of the JSON result array, with dates
//! and rates still held as strings. The corresponding domain record holds the
//! same fields with the dates narrowed to [`CalendarDate`] values and the
//! rates narrowed to [`FixedDecimal`] values; the normalizers perform exactly
//! this narrowing and never any business transformation.
use vstd::prelude::*;

verus! {

/// A calendar date as plain year, month and day components.
///
/// Validity dates and rate reference dates are held in this form; a
/// well-formed value satisfies [`CalendarDate::wf`].
#[derive(Clone, Copy, Debug, PartialEq, Eq, Structural)]
pub struct CalendarDate {
    pub year: i32,
    pub month: u8,
    pub day: u8,
}

impl View for CalendarDate {
    type V = (int, int, int);

    open spec fn view(&self) -> (int, int, int) {
        (self.year as int, self.month as int, self.day as int)
    }
}

impl CalendarDate {
    /// A real calendar date: the month and day components lie in their
    /// calendar ranges.
    pub open spec fn wf(&self) -> bool {
        &&& 1 <= self.month <= 12
        &&& 1 <= self.day <= 31
    }
}

/// A base-10 fixed-point decimal: the represented value is
/// `mantissa / 10^scale`.
#[derive(Clone, Copy, Debug, PartialEq, Eq, Structural)]
pub struct FixedDecimal {
    pub mantissa: i128,
    pub scale: u32,
}

impl View for FixedDecimal {
    type V = (int, int);

    open spec fn view(&self) -> (int, int) {
        (self.mantissa as int, self.scale as int)
    }
}

impl FixedDecimal {
    /// The value zero, with scale zero: the substitute for the upstream
    /// "N.A." sentinel.
    pub fn zero() -> (r: FixedDecimal)
        ensures
            r@ == (0int, 0int),
    {
        FixedDecimal { mantissa: 0, scale: 0 }
    }
}

/// Summary information that the provider attaches to a response.
#[derive(Clone, Debug, PartialEq, Eq)]
pub struct ResultInfo {
    /// The number of data points returned by the query.
    pub total_records: i32,
    /// The timezone used in the data.
    pub timezone_reference: String,
    /// Any additional information about the data.
    pub notice: String,
}

/// The metadata object wrapping [`ResultInfo`] in a response.
#[derive(Clone, Debug, PartialEq, Eq)]
pub struct MetaData {
    /// The results information.
    pub results_info: ResultInfo,
}

/// One element of the currencies result array, API-shaped: the validity
/// dates are still strings.
#[derive(Clone, Debug, PartialEq, Eq)]
pub struct CurrencyAPI {
    pub countries: Vec<CountryAPI>,
    pub isocode: String,
    pub name: String,
    pub graph: bool,
}

/// One country association of a currency, API-shaped: the validity dates
/// are still strings.
#[derive(Clone, Debug, PartialEq, Eq)]
pub struct CountryAPI {
    /// The isocode of the currency.
    pub currencyiso: String,
    /// The country of the currency.
    pub country: String,
    /// The isocode of the country; absent for supranational currencies.
    pub countryiso: Option<String>,
    /// The validity start date of the currency.
    pub validity_start_date: String,
    /// The validity end date of the currency; absent means still valid.
    pub validity_end_date: Option<String>,
}

/// A currency with its country associations, domain-shaped.
#[derive(Clone, Debug, PartialEq, Eq)]
pub struct Currency {
    /// The country data of the currency, in the order received from upstream.
    pub countries: Vec<Country>,
    /// The isocode of the currency.
    pub isocode: String,
    /// The name of the currency.
    pub name: String,
    /// Whether graph data is available for the currency.
    pub graph: bool,
}

/// A country association of a currency, domain-shaped: the validity dates
/// are calendar dates.
#[derive(Clone, Debug, PartialEq, Eq)]
pub struct Country {
    /// The isocode of the currency.
    pub currencyiso: String,
    /// The country of the currency.
    pub country: String,
    /// The isocode of the country; absent for supranational currencies.
    pub countryiso: Option<String>,
    /// The validity start date of the currency.
    pub validity_start_date: CalendarDate,
    /// The validity end date of the currency; absent means still valid.
    pub validity_end_date: Option<CalendarDate>,
}

/// The list of currencies of one response.
#[derive(Clone, Debug, PartialEq, Eq)]
pub struct Currencies {
    /// The currencies listed in the data.
    pub currencies: Vec<Currency>,
}

/// One element of the latest-rates result array, API-shaped: the reference
/// date and both rates are still strings.
#[derive(Clone, Debug, PartialEq, Eq)]
pub struct LatestRateAPI {
    /// The country related to the rates data.
    pub country: String,
    /// The currency related to the rates data.
    pub currency: String,
    /// The isocode of the currency.
    pub isocode: String,
    /// The provider-internal uic code of the currency, kept as a string.
    pub uiccode: String,
    /// The exchange rate between the currency and the euro.
    pub eur_rate: String,
    /// The exchange rate between the currency and the US dollar.
    pub usd_rate: String,
    /// The usd exchange convention.
    pub usd_exchange_convention: String,
    /// The usd exchange convention code.
    pub usd_exchange_convention_code: String,
    /// The reference date the rates apply to.
    pub reference_date: String,
}

/// A latest-rates record, domain-shaped: the reference date is a calendar
/// date and both rates are fixed-point decimals.
#[derive(Clone, Debug, PartialEq, Eq)]
pub struct LatestRate {
    /// The country related to the rates data.
    pub country: String,
    /// The currency related to the rates data.
    pub currency: String,
    /// The isocode of the currency.
    pub isocode: String,
    /// The provider-internal uic code of the currency, kept as a string.
    pub uiccode: String,
    /// The exchange rate between the currency and the euro.
    pub eur_rate: FixedDecimal,
    /// The exchange rate between the currency and the US dollar.
    pub usd_rate: FixedDecimal,
    /// The usd exchange convention.
    pub usd_exchange_convention: String,
    /// The usd exchange convention code.
    pub usd_exchange_convention_code: String,
    /// The reference date the rates apply to.
    pub reference_date: CalendarDate,
}

} // verus!
