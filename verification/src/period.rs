//! The historical time-period endpoint: exchange rates over a date range,
//! open-ended when no end date is given.

use vstd::prelude::*;

use crate::codes::{
    all_codes_valid, comma_join, find_invalid_code, first_invalid_code, is_valid_code,
    push_comma_joined, valid_code,
};
use crate::date::Date;
use crate::error::Error;
use crate::query::QueryParams;
use crate::request::{EndpointUrl, ServerClientRequest};
use crate::text::push_char;

verus! {

/// A request for historical rates over a time period.
#[derive(Debug)]
pub struct Request {
    /// The first date of the period.
    pub start: Date,
    /// The last date of the period; open-ended when absent.
    pub end: Option<Date>,
    /// The base currency code; the server's default when absent.
    pub base: Option<String>,
    /// The target currency codes; every supported one when absent.
    pub targets: Option<Vec<String>>,
}

/// Rates over a period, as decoded from a response body: one rate table
/// per date, rate values carried as decimal text.
#[derive(Debug, PartialEq, Eq)]
pub struct Response {
    pub base: String,
    pub start_date: String,
    pub end_date: String,
    pub rates: Vec<(String, Vec<(String, String)>)>,
}

impl Request {
    /// The failure of the period itself, if any: both dates must exist
    /// and the end must not precede the start.
    pub open spec fn period_error(self) -> Option<Error> {
        if !self.start.valid() {
            Option::Some(Error::InvalidDate { date: self.start })
        } else {
            match self.end {
                Option::Some(e) => if !e.valid() {
                    Option::Some(Error::InvalidDate { date: e })
                } else if !self.start.spec_le(e) {
                    Option::Some(Error::InvalidDateRange { start: self.start, end: e })
                } else {
                    Option::None
                },
                Option::None => Option::None,
            }
        }
    }

    /// The failure of the base-currency field, if any.
    pub open spec fn base_error(self) -> Option<Error> {
        match self.base {
            Option::Some(b) => if valid_code(b@) {
                Option::None
            } else {
                Option::Some(Error::InvalidCurrencyCode { code: b })
            },
            Option::None => Option::None,
        }
    }

    /// The failure of the target-currency list, if any.
    pub open spec fn targets_error(self) -> Option<Error> {
        match self.targets {
            Option::Some(t) => if t@.len() == 0 {
                Option::Some(Error::EmptyCurrencyList)
            } else if !all_codes_valid(t.deep_view()) {
                Option::Some(Error::InvalidCurrencyCode { code: first_invalid_code(t@) })
            } else {
                Option::None
            },
            Option::None => Option::None,
        }
    }
}

impl ServerClientRequest for Request {
    open spec fn valid(&self) -> bool {
        self.period_error() is None && self.base_error() is None && self.targets_error() is None
    }

    open spec fn validation_error(&self) -> Error {
        match self.period_error() {
            Option::Some(e) => e,
            Option::None => match self.base_error() {
                Option::Some(e) => e,
                Option::None => match self.targets_error() {
                    Option::Some(e) => e,
                    Option::None => arbitrary(),
                },
            },
        }
    }

    open spec fn url_spec(&self) -> Seq<char> {
        self.start.str_spec() + seq!['.', '.'] + (match self.end {
            Option::Some(e) => e.str_spec(),
            Option::None => Seq::<char>::empty(),
        })
    }

    open spec fn params_spec(&self) -> Seq<(Seq<char>, Seq<char>)> {
        (match self.base {
            Option::Some(b) => seq![("from"@, b@)],
            Option::None => Seq::empty(),
        }) + (match self.targets {
            Option::Some(t) => seq![("to"@, comma_join(t.deep_view()))],
            Option::None => Seq::empty(),
        })
    }

    proof fn validation_error_is_validation(&self) {
    }

    fn get_url(&self) -> (r: EndpointUrl) {
        let mut s = String::new();
        self.start.push_onto(&mut s);
        push_char(&mut s, '.');
        push_char(&mut s, '.');
        match &self.end {
            Option::Some(e) => {
                e.push_onto(&mut s);
            },
            Option::None => {},
        }
        proof {
            assert(s@ =~= self.url_spec());
        }
        s
    }

    fn build_query_params(&self) -> (r: QueryParams) {
        let mut params: QueryParams = Vec::new();
        match &self.base {
            Option::Some(b) => {
                params.push(("from", b.clone()));
            },
            Option::None => {},
        }
        match &self.targets {
            Option::Some(t) => {
                let mut v = String::new();
                push_comma_joined(&mut v, t);
                params.push(("to", v));
            },
            Option::None => {},
        }
        proof {
            assert(params.deep_view() =~= self.params_spec());
        }
        params
    }

    fn ensure_valid(&self) -> (r: Result<(), Error>) {
        if !self.start.is_valid() {
            return Result::Err(Error::InvalidDate { date: self.start });
        }
        match &self.end {
            Option::Some(e) => {
                if !e.is_valid() {
                    return Result::Err(Error::InvalidDate { date: *e });
                }
                if !self.start.le(e) {
                    return Result::Err(Error::InvalidDateRange { start: self.start, end: *e });
                }
            },
            Option::None => {},
        }
        match &self.base {
            Option::Some(b) => {
                if !is_valid_code(b.as_str()) {
                    return Result::Err(Error::InvalidCurrencyCode { code: b.clone() });
                }
            },
            Option::None => {},
        }
        match &self.targets {
            Option::Some(t) => {
                if t.len() == 0 {
                    return Result::Err(Error::EmptyCurrencyList);
                }
                match find_invalid_code(t) {
                    Option::Some(code) => {
                        return Result::Err(Error::InvalidCurrencyCode { code });
                    },
                    Option::None => {},
                }
            },
            Option::None => {},
        }
        Result::Ok(())
    }
}

} // verus!
