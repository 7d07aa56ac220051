use frankfurter_client::convert;
use frankfurter_client::currencies;
use frankfurter_client::date::Date;
use frankfurter_client::period;
use frankfurter_client::Error;
use frankfurter_client::ServerClientRequest;

fn code(s: &str) -> Option<String> {
    Some(s.to_string())
}

fn codes(list: &[&str]) -> Option<Vec<String>> {
    Some(list.iter().map(|s| s.to_string()).collect())
}

#[test]
fn convert_default_request_targets_latest() {
    let req = convert::Request { date: None, amount: None, base: None, targets: None };
    let (url, params) = req.setup().expect("a plain request is valid");
    assert_eq!(url, "latest");
    assert!(params.is_empty());
}

#[test]
fn convert_request_builds_ordered_params() {
    let req = convert::Request {
        date: None,
        amount: Some(10),
        base: code("USD"),
        targets: codes(&["EUR"]),
    };
    let (url, params) = req.setup().expect("the request is valid");
    assert_eq!(url, "latest");
    let got: Vec<(&str, String)> = params;
    assert_eq!(
        got,
        vec![
            ("amount", "10".to_string()),
            ("from", "USD".to_string()),
            ("to", "EUR".to_string()),
        ]
    );
}

#[test]
fn convert_request_joins_targets_with_commas() {
    let req = convert::Request {
        date: None,
        amount: None,
        base: None,
        targets: codes(&["EUR", "GBP", "JPY"]),
    };
    let (_, params) = req.setup().expect("the request is valid");
    assert_eq!(params, vec![("to", "EUR,GBP,JPY".to_string())]);
}

#[test]
fn convert_request_dated_url_is_the_date() {
    let req = convert::Request {
        date: Some(Date { year: 2024, month: 1, day: 5 }),
        amount: None,
        base: None,
        targets: None,
    };
    let (url, _) = req.setup().expect("the request is valid");
    assert_eq!(url, "2024-01-05");
}

#[test]
fn convert_request_rejects_bad_date() {
    let bad = Date { year: 2023, month: 2, day: 29 };
    let req = convert::Request { date: Some(bad), amount: None, base: None, targets: None };
    assert_eq!(req.setup().unwrap_err(), Error::InvalidDate { date: bad });
}

#[test]
fn convert_request_accepts_leap_day() {
    let req = convert::Request {
        date: Some(Date { year: 2024, month: 2, day: 29 }),
        amount: None,
        base: None,
        targets: None,
    };
    assert_eq!(req.setup().expect("a leap day is valid").0, "2024-02-29");
}

#[test]
fn century_years_are_not_leap_years_unless_divisible_by_400() {
    let req = convert::Request {
        date: Some(Date { year: 1900, month: 2, day: 29 }),
        amount: None,
        base: None,
        targets: None,
    };
    assert!(req.setup().is_err());
    let req = convert::Request {
        date: Some(Date { year: 2000, month: 2, day: 29 }),
        amount: None,
        base: None,
        targets: None,
    };
    assert!(req.setup().is_ok());
}

#[test]
fn convert_request_rejects_bad_base_code() {
    let req = convert::Request { date: None, amount: None, base: code("usd"), targets: None };
    assert_eq!(req.setup().unwrap_err(), Error::InvalidCurrencyCode { code: "usd".to_string() });
    let req = convert::Request { date: None, amount: None, base: code("EURO"), targets: None };
    assert_eq!(req.setup().unwrap_err(), Error::InvalidCurrencyCode { code: "EURO".to_string() });
    let req = convert::Request { date: None, amount: None, base: code(""), targets: None };
    assert_eq!(req.setup().unwrap_err(), Error::InvalidCurrencyCode { code: "".to_string() });
}

#[test]
fn convert_request_rejects_empty_target_list() {
    let req = convert::Request { date: None, amount: None, base: None, targets: codes(&[]) };
    assert_eq!(req.setup().unwrap_err(), Error::EmptyCurrencyList);
}

#[test]
fn convert_request_names_first_bad_target() {
    let req = convert::Request {
        date: None,
        amount: None,
        base: None,
        targets: codes(&["EUR", "gbp", "x"]),
    };
    assert_eq!(req.setup().unwrap_err(), Error::InvalidCurrencyCode { code: "gbp".to_string() });
}

#[test]
fn period_request_builds_closed_range_url() {
    let req = period::Request {
        start: Date { year: 2024, month: 1, day: 1 },
        end: Some(Date { year: 2024, month: 6, day: 30 }),
        base: code("USD"),
        targets: codes(&["EUR"]),
    };
    let (url, params) = req.setup().expect("the period is valid");
    assert_eq!(url, "2024-01-01..2024-06-30");
    assert_eq!(params, vec![("from", "USD".to_string()), ("to", "EUR".to_string())]);
}

#[test]
fn period_request_builds_open_range_url() {
    let req = period::Request {
        start: Date { year: 2024, month: 1, day: 1 },
        end: None,
        base: None,
        targets: None,
    };
    let (url, params) = req.setup().expect("the period is valid");
    assert_eq!(url, "2024-01-01..");
    assert!(params.is_empty());
}

#[test]
fn period_request_rejects_inverted_range() {
    let start = Date { year: 2024, month: 6, day: 30 };
    let end = Date { year: 2024, month: 1, day: 1 };
    let req = period::Request { start, end: Some(end), base: None, targets: None };
    assert_eq!(req.setup().unwrap_err(), Error::InvalidDateRange { start, end });
}

#[test]
fn period_request_accepts_one_day_range() {
    let d = Date { year: 2024, month: 3, day: 15 };
    let req = period::Request { start: d, end: Some(d), base: None, targets: None };
    assert_eq!(req.setup().expect("a one-day period is valid").0, "2024-03-15..2024-03-15");
}

#[test]
fn currencies_request_is_always_valid() {
    let req = currencies::Request {};
    let (url, params) = req.setup().expect("the request has nothing to validate");
    assert_eq!(url, "currencies");
    assert!(params.is_empty());
}

#[test]
fn amount_formatting_is_plain_decimal() {
    let zero = convert::Request { date: None, amount: Some(0), base: None, targets: None };
    assert_eq!(zero.setup().unwrap().1, vec![("amount", "0".to_string())]);
    let large = convert::Request {
        date: None,
        amount: Some(u64::MAX),
        base: None,
        targets: None,
    };
    assert_eq!(
        large.setup().unwrap().1,
        vec![("amount", "18446744073709551615".to_string())]
    );
}

#[test]
fn code_validation_is_exact() {
    assert!(frankfurter_client::codes::is_valid_code("EUR"));
    assert!(!frankfurter_client::codes::is_valid_code("EU"));
    assert!(!frankfurter_client::codes::is_valid_code("EURO"));
    assert!(!frankfurter_client::codes::is_valid_code("eur"));
    assert!(!frankfurter_client::codes::is_valid_code("EU1"));
}
