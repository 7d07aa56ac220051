//! The uniform contract every endpoint-specific request satisfies: it
//! names its relative endpoint path, lists its query parameters, and
//! validates its own semantic preconditions before any transport work.

use vstd::prelude::*;

use crate::error::Error;
use crate::query::QueryParams;

verus! {

/// An endpoint's relative URL.
pub type EndpointUrl = String;

/// The capability interface of one endpoint-specific request.
pub trait ServerClientRequest {
    /// Whether the request's semantic preconditions hold.
    spec fn valid(&self) -> bool;

    /// The error validation reports when the preconditions do not hold.
    spec fn validation_error(&self) -> Error;

    /// The relative endpoint path the request addresses.
    spec fn url_spec(&self) -> Seq<char>;

    /// The ordered query parameters the request carries.
    spec fn params_spec(&self) -> Seq<(Seq<char>, Seq<char>)>;

    /// The reported error is always of the validation kind.
    proof fn validation_error_is_validation(&self)
        requires
            !self.valid(),
        ensures
            self.validation_error().is_validation(),
    ;

    /// Returns the relative endpoint path.
    fn get_url(&self) -> (r: EndpointUrl)
        requires
            self.valid(),
        ensures
            r@ == self.url_spec(),
    ;

    /// Returns the query parameters, in their deterministic order.
    fn build_query_params(&self) -> (r: QueryParams)
        requires
            self.valid(),
        ensures
            r.deep_view() == self.params_spec(),
    ;

    /// Checks the request's semantic preconditions; returns the
    /// validation error exactly when they do not hold.
    fn ensure_valid(&self) -> (r: Result<(), Error>)
        ensures
            self.valid() <==> r matches Ok(_),
            r matches Err(e) ==> e == self.validation_error(),
    ;

    /// The single entry point of dispatch: validates first and
    /// short-circuits with the validation error, else hands out the
    /// endpoint path and the query parameters.
    fn setup(&self) -> (r: Result<(EndpointUrl, QueryParams), Error>)
        ensures
            self.valid() ==> (r matches Ok(p) && p.0@ == self.url_spec() && p.1.deep_view()
                == self.params_spec()),
            !self.valid() ==> (r matches Err(e) && e == self.validation_error()),
    {
        match self.ensure_valid() {
            Result::Err(e) => Result::Err(e),
            Result::Ok(_) => Result::Ok((self.get_url(), self.build_query_params())),
        }
    }
}

} // verus!
