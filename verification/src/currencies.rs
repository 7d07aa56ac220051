//! The supported-currency endpoint: the codes the API understands and
//! their full names.

use vstd::prelude::*;

use crate::error::Error;
use crate::query::QueryParams;
use crate::request::{EndpointUrl, ServerClientRequest};

verus! {

/// A request for the supported currencies; it carries no filters and is
/// always valid.
#[derive(Debug)]
pub struct Request {}

/// The supported currencies, as decoded from a response body: pairs of
/// code and full name.
#[derive(Debug, PartialEq, Eq)]
pub struct Response {
    pub currencies: Vec<(String, String)>,
}

impl ServerClientRequest for Request {
    open spec fn valid(&self) -> bool {
        true
    }

    open spec fn validation_error(&self) -> Error {
        arbitrary()
    }

    open spec fn url_spec(&self) -> Seq<char> {
        "currencies"@
    }

    open spec fn params_spec(&self) -> Seq<(Seq<char>, Seq<char>)> {
        Seq::empty()
    }

    proof fn validation_error_is_validation(&self) {
    }

    fn get_url(&self) -> (r: EndpointUrl) {
        "currencies".to_owned()
    }

    fn build_query_params(&self) -> (r: QueryParams) {
        let params: QueryParams = Vec::new();
        proof {
            assert(params.deep_view() =~= self.params_spec());
        }
        params
    }

    fn ensure_valid(&self) -> (r: Result<(), Error>) {
        Result::Ok(())
    }
}

} // verus!
