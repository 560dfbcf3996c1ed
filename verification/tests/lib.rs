use bank_of_italy_api::envelope::currencies_from_document;
use bank_of_italy_api::envelope::decode_currency;
use bank_of_italy_api::envelope::extract_array;
use bank_of_italy_api::envelope::latest_rates_from_document;
use bank_of_italy_api::error::BancaDItaliaError;
use bank_of_italy_api::normalize::normalize_currencies;
use bank_of_italy_api::normalize::normalize_rates;
use bank_of_italy_api::parsing::clean_decimal;
use bank_of_italy_api::records::CalendarDate;
use bank_of_italy_api::records::Currencies;
use bank_of_italy_api::records::CountryAPI;
use bank_of_italy_api::records::CurrencyAPI;
use bank_of_italy_api::records::FixedDecimal;
use bank_of_italy_api::records::LatestRateAPI;
use bank_of_italy_api::records::MetaData;
use bank_of_italy_api::records::ResultInfo;

fn doc(text: &str) -> serde_json::Value {
    serde_json::from_str(text).expect("test document must be valid JSON")
}

const CURRENCIES_DOC: &str = r#"{
  "resultsInfo": {"totalRecords": 2, "timezoneReference": "CET", "notice": ""},
  "currencies": [
    {
      "countries": [
        {
          "currencyISO": "ADP",
          "country": "ANDORRA",
          "countryISO": "AD",
          "validityStartDate": "1994-01-01",
          "validityEndDate": "2002-06-30"
        }
      ],
      "isoCode": "ADP",
      "name": "Andorran Peseta",
      "graph": false
    },
    {
      "countries": [
        {
          "currencyISO": "AFN",
          "country": "AFGHANISTAN (Islamic State of)",
          "countryISO": "AF",
          "validityStartDate": "2003-01-01",
          "validityEndDate": null
        }
      ],
      "isoCode": "AFN",
      "name": "Afghani",
      "graph": true
    }
  ]
}"#;

const RATES_DOC: &str = r#"{
  "latestRates": [
    {
      "country": "EUROPEAN MONETARY UNION",
      "currency": "Euro",
      "isoCode": "EUR",
      "uicCode": "242",
      "eurRate": "1.0000",
      "usdRate": "1.0850",
      "usdExchangeConvention": "Foreign currency amount for 1 dollar",
      "usdExchangeConventionCode": "C",
      "referenceDate": "2024-01-15"
    },
    {
      "country": "AFGHANISTAN",
      "currency": "Afghani",
      "isoCode": "AFN",
      "uicCode": "314",
      "eurRate": "N.A.",
      "usdRate": "71.25",
      "usdExchangeConvention": "Foreign currency amount for 1 dollar",
      "usdExchangeConventionCode": "C",
      "referenceDate": "2024-01-15"
    }
  ]
}"#;

#[test]
fn currencies_end_to_end() {
    let result = currencies_from_document(&doc(CURRENCIES_DOC)).unwrap();
    assert_eq!(result.len(), 2);
    assert_eq!(result[0].isocode, "ADP");
    assert_eq!(result[0].name, "Andorran Peseta");
    assert!(!result[0].graph);
    assert_eq!(result[0].countries.len(), 1);
    assert_eq!(result[0].countries[0].currencyiso, "ADP");
    assert_eq!(result[0].countries[0].country, "ANDORRA");
    assert_eq!(result[0].countries[0].countryiso, Some("AD".to_owned()));
    assert_eq!(
        result[0].countries[0].validity_start_date,
        CalendarDate { year: 1994, month: 1, day: 1 }
    );
    assert_eq!(
        result[0].countries[0].validity_end_date,
        Some(CalendarDate { year: 2002, month: 6, day: 30 })
    );
    assert_eq!(result[1].isocode, "AFN");
    assert_eq!(result[1].countries[0].country, "AFGHANISTAN (Islamic State of)");
    assert_eq!(result[1].countries[0].validity_end_date, None);
}

#[test]
fn rates_end_to_end() {
    let result = latest_rates_from_document(&doc(RATES_DOC)).unwrap();
    assert_eq!(result.len(), 2);
    let euro = &result[0];
    assert_eq!(euro.country, "EUROPEAN MONETARY UNION");
    assert_eq!(euro.currency, "Euro");
    assert_eq!(euro.isocode, "EUR");
    assert_eq!(euro.uiccode, "242");
    assert_eq!(euro.eur_rate, FixedDecimal { mantissa: 10000, scale: 4 });
    assert_eq!(euro.usd_rate, FixedDecimal { mantissa: 10850, scale: 4 });
    assert_eq!(euro.usd_exchange_convention_code, "C");
    assert_eq!(euro.reference_date, CalendarDate { year: 2024, month: 1, day: 15 });
    // The "N.A." sentinel of the second record becomes the value zero.
    assert_eq!(result[1].eur_rate, FixedDecimal { mantissa: 0, scale: 0 });
    assert_eq!(result[1].usd_rate, FixedDecimal { mantissa: 7125, scale: 2 });
}

#[test]
fn clean_decimal_sentinel_yields_zero() {
    assert_eq!(clean_decimal("N.A.").unwrap(), FixedDecimal { mantissa: 0, scale: 0 });
    assert_eq!(clean_decimal("  N.A.\t").unwrap(), FixedDecimal { mantissa: 0, scale: 0 });
}

#[test]
fn clean_decimal_parses_numerals() {
    assert_eq!(clean_decimal("1.5").unwrap(), FixedDecimal { mantissa: 15, scale: 1 });
    assert_eq!(clean_decimal(" 1.5 ").unwrap(), FixedDecimal { mantissa: 15, scale: 1 });
    assert_eq!(clean_decimal("-0.25").unwrap(), FixedDecimal { mantissa: -25, scale: 2 });
    assert_eq!(clean_decimal("0").unwrap(), FixedDecimal { mantissa: 0, scale: 0 });
    assert_eq!(clean_decimal("71.25").unwrap(), FixedDecimal { mantissa: 7125, scale: 2 });
}

#[test]
fn clean_decimal_invalid_is_conversion_failed() {
    assert!(matches!(
        clean_decimal("not a number"),
        Err(BancaDItaliaError::ConversionFailed(_))
    ));
    assert!(matches!(clean_decimal(""), Err(BancaDItaliaError::ConversionFailed(_))));
    assert!(matches!(clean_decimal("N.A"), Err(BancaDItaliaError::ConversionFailed(_))));
    assert!(matches!(clean_decimal("1.2.3"), Err(BancaDItaliaError::ConversionFailed(_))));
}

#[test]
fn missing_key_is_no_result() {
    let other = doc(r#"{"somethingElse": []}"#);
    assert!(matches!(
        currencies_from_document(&other),
        Err(BancaDItaliaError::NoResult)
    ));
    assert!(matches!(
        latest_rates_from_document(&other),
        Err(BancaDItaliaError::NoResult)
    ));
}

#[test]
fn non_array_key_is_no_result() {
    let wrong = doc(r#"{"currencies": "nope", "latestRates": 7}"#);
    assert!(matches!(
        currencies_from_document(&wrong),
        Err(BancaDItaliaError::NoResult)
    ));
    assert!(matches!(
        latest_rates_from_document(&wrong),
        Err(BancaDItaliaError::NoResult)
    ));
    assert!(matches!(extract_array(&wrong, "currencies"), Err(BancaDItaliaError::NoResult)));
}

#[test]
fn bad_element_is_deserialize_failed_and_all_or_nothing() {
    // The first element is fine; the second lacks the isoCode field.
    let mixed = doc(
        r#"{"currencies": [
            {"countries": [], "isoCode": "ADP", "name": "Andorran Peseta", "graph": false},
            {"countries": [], "name": "Broken", "graph": true}
        ]}"#,
    );
    assert!(matches!(
        currencies_from_document(&mixed),
        Err(BancaDItaliaError::DeserializeFailed(_))
    ));
    // A field of the wrong type is a structural mismatch too.
    let wrong_type = doc(
        r#"{"currencies": [
            {"countries": [], "isoCode": "ADP", "name": "Andorran Peseta", "graph": "no"}
        ]}"#,
    );
    assert!(matches!(
        currencies_from_document(&wrong_type),
        Err(BancaDItaliaError::DeserializeFailed(_))
    ));
    let bad_rate_element = doc(r#"{"latestRates": [{"country": "X"}]}"#);
    assert!(matches!(
        latest_rates_from_document(&bad_rate_element),
        Err(BancaDItaliaError::DeserializeFailed(_))
    ));
}

#[test]
fn decode_currency_reads_nested_countries() {
    let element = doc(
        r#"{
            "countries": [{
                "currencyISO": "ADP",
                "country": "ANDORRA",
                "countryISO": null,
                "validityStartDate": "1994-01-01"
            }],
            "isoCode": "ADP",
            "name": "Andorran Peseta",
            "graph": false
        }"#,
    );
    let record = decode_currency(&element).unwrap();
    assert_eq!(record.isocode, "ADP");
    assert_eq!(record.countries.len(), 1);
    // A null countryISO and an absent validityEndDate are both read as None.
    assert_eq!(record.countries[0].countryiso, None);
    assert_eq!(record.countries[0].validity_end_date, None);
    assert_eq!(record.countries[0].validity_start_date, "1994-01-01");
}

#[test]
fn bad_date_is_api_error() {
    let bad_currency_date = doc(
        r#"{"currencies": [{
            "countries": [{
                "currencyISO": "ADP",
                "country": "ANDORRA",
                "validityStartDate": "not a date"
            }],
            "isoCode": "ADP",
            "name": "Andorran Peseta",
            "graph": false
        }]}"#,
    );
    assert!(matches!(
        currencies_from_document(&bad_currency_date),
        Err(BancaDItaliaError::ApiError(_))
    ));
    let bad_reference_date = doc(
        r#"{"latestRates": [{
            "country": "EUROPEAN MONETARY UNION",
            "currency": "Euro",
            "isoCode": "EUR",
            "uicCode": "242",
            "eurRate": "1.0000",
            "usdRate": "1.0850",
            "usdExchangeConvention": "x",
            "usdExchangeConventionCode": "C",
            "referenceDate": "yesterday"
        }]}"#,
    );
    assert!(matches!(
        latest_rates_from_document(&bad_reference_date),
        Err(BancaDItaliaError::ApiError(_))
    ));
}

#[test]
fn bad_rate_is_conversion_failed() {
    let bad_rate = doc(
        r#"{"latestRates": [{
            "country": "EUROPEAN MONETARY UNION",
            "currency": "Euro",
            "isoCode": "EUR",
            "uicCode": "242",
            "eurRate": "one",
            "usdRate": "1.0850",
            "usdExchangeConvention": "x",
            "usdExchangeConventionCode": "C",
            "referenceDate": "2024-01-15"
        }]}"#,
    );
    assert!(matches!(
        latest_rates_from_document(&bad_rate),
        Err(BancaDItaliaError::ConversionFailed(_))
    ));
}

#[test]
fn repeated_calls_on_unchanged_document_agree() {
    let document = doc(CURRENCIES_DOC);
    let first = currencies_from_document(&document).unwrap();
    let second = currencies_from_document(&document).unwrap();
    assert_eq!(first, second);
    let rates_document = doc(RATES_DOC);
    let first_rates = latest_rates_from_document(&rates_document).unwrap();
    let second_rates = latest_rates_from_document(&rates_document).unwrap();
    assert_eq!(first_rates, second_rates);
}

#[test]
fn normalize_currencies_preserves_count_and_fields() {
    let api = vec![
        CurrencyAPI {
            countries: vec![CountryAPI {
                currencyiso: "ADP".to_owned(),
                country: "ANDORRA".to_owned(),
                countryiso: Some("AD".to_owned()),
                validity_start_date: "1994-01-01".to_owned(),
                validity_end_date: Some("2002-06-30".to_owned()),
            }],
            isocode: "ADP".to_owned(),
            name: "Andorran Peseta".to_owned(),
            graph: false,
        },
        CurrencyAPI {
            countries: vec![],
            isocode: "AFN".to_owned(),
            name: "Afghani".to_owned(),
            graph: true,
        },
    ];
    let result = normalize_currencies(api).unwrap();
    assert_eq!(result.len(), 2);
    assert_eq!(result[0].isocode, "ADP");
    assert_eq!(result[0].name, "Andorran Peseta");
    assert!(!result[0].graph);
    assert_eq!(result[0].countries[0].currencyiso, "ADP");
    assert_eq!(result[0].countries[0].countryiso, Some("AD".to_owned()));
    assert_eq!(
        result[0].countries[0].validity_start_date,
        CalendarDate { year: 1994, month: 1, day: 1 }
    );
    assert_eq!(
        result[0].countries[0].validity_end_date,
        Some(CalendarDate { year: 2002, month: 6, day: 30 })
    );
    assert_eq!(result[1].isocode, "AFN");
    assert_eq!(result[1].countries.len(), 0);
}

#[test]
fn normalize_rates_converts_each_field() {
    let api = vec![LatestRateAPI {
        country: "EUROPEAN MONETARY UNION".to_owned(),
        currency: "Euro".to_owned(),
        isocode: "EUR".to_owned(),
        uiccode: "242".to_owned(),
        eur_rate: "1.0000".to_owned(),
        usd_rate: "N.A.".to_owned(),
        usd_exchange_convention: "x".to_owned(),
        usd_exchange_convention_code: "C".to_owned(),
        reference_date: "2024-01-15".to_owned(),
    }];
    let result = normalize_rates(api).unwrap();
    assert_eq!(result.len(), 1);
    assert_eq!(result[0].uiccode, "242");
    assert_eq!(result[0].eur_rate, FixedDecimal { mantissa: 10000, scale: 4 });
    assert_eq!(result[0].usd_rate, FixedDecimal { mantissa: 0, scale: 0 });
    assert_eq!(result[0].reference_date, CalendarDate { year: 2024, month: 1, day: 15 });
}

#[test]
fn empty_array_is_ok_and_empty() {
    let empty = doc(r#"{"currencies": [], "latestRates": []}"#);
    assert_eq!(currencies_from_document(&empty).unwrap().len(), 0);
    assert_eq!(latest_rates_from_document(&empty).unwrap().len(), 0);
}

#[test]
fn metadata_records_hold_their_fields() {
    let info = ResultInfo {
        total_records: 2,
        timezone_reference: "CET".to_owned(),
        notice: "".to_owned(),
    };
    let meta = MetaData { results_info: info.clone() };
    assert_eq!(meta.results_info, info);
    assert_eq!(meta.results_info.total_records, 2);
    let listed = Currencies { currencies: currencies_from_document(&doc(CURRENCIES_DOC)).unwrap() };
    assert_eq!(listed.currencies.len(), 2);
}

#[test]
fn error_messages_name_the_cause() {
    assert_eq!(BancaDItaliaError::NoResult.message(), "empty dataset");
    assert_eq!(
        BancaDItaliaError::ApiError("bad date".to_owned()).message(),
        "bad date"
    );
}
