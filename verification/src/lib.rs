//! Verified client core for the Frankfurter currency-exchange-rate API.
//!
//! The crate models the request/response abstraction layer of the API
//! client: base-URL normalization, the uniform request contract, request
//! validation, endpoint-URL construction, and classification of transport
//! replies.  The transport round trip itself is asynchronous I/O and
//! happens outside the verified core; the deciding functions here take
//! its outcome as a plain [`client::TransportReply`] value.

use vstd::prelude::*;

pub mod base_url;
pub mod client;
pub mod codes;
pub mod convert;
pub mod currencies;
pub mod date;
pub mod error;
pub mod period;
pub mod query;
pub mod request;
pub mod text;

pub use base_url::ApiUrl;
pub use client::{PreparedRequest, ServerClient, TransportReply};
pub use error::Error;
pub use query::QueryParams;
pub use request::{EndpointUrl, ServerClientRequest};

verus! {

/// The fixed API version segment appended to every base URL.
pub open spec fn version_segment() -> Seq<char> {
    seq!['v', '1']
}

} // verus!
