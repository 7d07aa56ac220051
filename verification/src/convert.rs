//! The conversion-rate endpoint: exchange rates for a base currency
//! against target currencies, at the latest date or a requested one.

use vstd::prelude::*;

use crate::codes::{
    all_codes_valid, comma_join, find_invalid_code, first_invalid_code, is_valid_code,
    push_comma_joined, valid_code,
};
use crate::date::Date;
use crate::error::Error;
use crate::query::QueryParams;
use crate::request::{EndpointUrl, ServerClientRequest};
use crate::text::{decimal_seq, push_decimal};

verus! {

/// A request for conversion rates.
#[derive(Debug)]
pub struct Request {
    /// The date requested; the latest rates when absent.
    pub date: Option<Date>,
    /// The amount to convert; the server's default when absent.
    pub amount: Option<u64>,
    /// The base currency code; the server's default when absent.
    pub base: Option<String>,
    /// The target currency codes; every supported one when absent.
    pub targets: Option<Vec<String>>,
}

/// Rates for one date, as decoded from a response body: the amount and
/// the rate values are carried as decimal text.
#[derive(Debug, PartialEq, Eq)]
pub struct Response {
    pub amount: String,
    pub base: String,
    pub date: String,
    pub rates: Vec<(String, String)>,
}

impl Request {
    /// The failure of the date field, if any.
    pub open spec fn date_error(self) -> Option<Error> {
        match self.date {
            Option::Some(d) => if d.valid() {
                Option::None
            } else {
                Option::Some(Error::InvalidDate { date: d })
            },
            Option::None => Option::None,
        }
    }

    /// The failure of the base-currency field, if any.
    pub open spec fn base_error(self) -> Option<Error> {
        match self.base {
            Option::Some(b) => if valid_code(b@) {
                Option::None
            } else {
                Option::Some(Error::InvalidCurrencyCode { code: b })
            },
            Option::None => Option::None,
        }
    }

    /// The failure of the target-currency list, if any: it must not be
    /// empty and every code in it must be well formed.
    pub open spec fn targets_error(self) -> Option<Error> {
        match self.targets {
            Option::Some(t) => if t@.len() == 0 {
                Option::Some(Error::EmptyCurrencyList)
            } else if !all_codes_valid(t.deep_view()) {
                Option::Some(Error::InvalidCurrencyCode { code: first_invalid_code(t@) })
            } else {
                Option::None
            },
            Option::None => Option::None,
        }
    }
}

impl ServerClientRequest for Request {
    open spec fn valid(&self) -> bool {
        self.date_error() is None && self.base_error() is None && self.targets_error() is None
    }

    open spec fn validation_error(&self) -> Error {
        match self.date_error() {
            Option::Some(e) => e,
            Option::None => match self.base_error() {
                Option::Some(e) => e,
                Option::None => match self.targets_error() {
                    Option::Some(e) => e,
                    Option::None => arbitrary(),
                },
            },
        }
    }

    open spec fn url_spec(&self) -> Seq<char> {
        match self.date {
            Option::Some(d) => d.str_spec(),
            Option::None => "latest"@,
        }
    }

    open spec fn params_spec(&self) -> Seq<(Seq<char>, Seq<char>)> {
        (match self.amount {
            Option::Some(a) => seq![("amount"@, decimal_seq(a as int))],
            Option::None => Seq::empty(),
        }) + (match self.base {
            Option::Some(b) => seq![("from"@, b@)],
            Option::None => Seq::empty(),
        }) + (match self.targets {
            Option::Some(t) => seq![("to"@, comma_join(t.deep_view()))],
            Option::None => Seq::empty(),
        })
    }

    proof fn validation_error_is_validation(&self) {
    }

    fn get_url(&self) -> (r: EndpointUrl) {
        match &self.date {
            Option::Some(d) => d.to_query_string(),
            Option::None => "latest".to_owned(),
        }
    }

    fn build_query_params(&self) -> (r: QueryParams) {
        let mut params: QueryParams = Vec::new();
        match &self.amount {
            Option::Some(a) => {
                let mut v = String::new();
                push_decimal(&mut v, *a);
                params.push(("amount", v));
            },
            Option::None => {},
        }
        match &self.base {
            Option::Some(b) => {
                params.push(("from", b.clone()));
            },
            Option::None => {},
        }
        match &self.targets {
            Option::Some(t) => {
                let mut v = String::new();
                push_comma_joined(&mut v, t);
                params.push(("to", v));
            },
            Option::None => {},
        }
        proof {
            assert(params.deep_view() =~= self.params_spec());
        }
        params
    }

    fn ensure_valid(&self) -> (r: Result<(), Error>) {
        match &self.date {
            Option::Some(d) => {
                if !d.is_valid() {
                    return Result::Err(Error::InvalidDate { date: *d });
                }
            },
            Option::None => {},
        }
        match &self.base {
            Option::Some(b) => {
                if !is_valid_code(b.as_str()) {
                    return Result::Err(Error::InvalidCurrencyCode { code: b.clone() });
                }
            },
            Option::None => {},
        }
        match &self.targets {
            Option::Some(t) => {
                if t.len() == 0 {
                    return Result::Err(Error::EmptyCurrencyList);
                }
                match find_invalid_code(t) {
                    Option::Some(code) => {
                        return Result::Err(Error::InvalidCurrencyCode { code });
                    },
                    Option::None => {},
                }
            },
            Option::None => {},
        }
        Result::Ok(())
    }
}

} // verus!
