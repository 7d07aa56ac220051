//! The closed error taxonomy of the client: transport failure, non-success
//! HTTP responses, and request-validation failures.

use vstd::prelude::*;

use crate::date::Date;

verus! {

/// Every failure the client surfaces to its caller.
#[derive(Clone, Debug, PartialEq, Eq)]
pub enum Error {
    /// The transport failed (connection, timeout, or body decoding); the
    /// originating cause is kept as text.
    Transport { cause: String },
    /// The API answered with a non-success status; the status, the raw
    /// body text, and the requested URL are captured for diagnosis.
    InvalidResponse { status: u16, body: String, url: String },
    /// A request carried a date that does not exist.
    InvalidDate { date: Date },
    /// A request carried a time period whose end precedes its start.
    InvalidDateRange { start: Date, end: Date },
    /// A request carried a malformed currency code.
    InvalidCurrencyCode { code: String },
    /// A request carried an empty list of target currencies.
    EmptyCurrencyList,
}

impl Error {
    /// Holds of the errors produced by request validation, before any
    /// transport work.
    pub open spec fn is_validation(self) -> bool {
        match self {
            Error::InvalidDate { .. } => true,
            Error::InvalidDateRange { .. } => true,
            Error::InvalidCurrencyCode { .. } => true,
            Error::EmptyCurrencyList => true,
            _ => false,
        }
    }

}

} // verus!
