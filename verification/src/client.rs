//! The server client: a normalized base URL plus a reusable transport
//! handle, with the decision half of request dispatch.  The transport
//! round trip itself is asynchronous I/O and happens outside the verified
//! core; its outcome comes back in as a [`TransportReply`] value.

use vstd::prelude::*;

use crate::base_url::{normalized_segments, push_segment, ApiUrl, UrlModel};
use crate::error::Error;
use crate::query::{push_query, query_suffix_seq};
use crate::request::ServerClientRequest;
use crate::text::without_slashes;
use crate::version_segment;

verus! {

/// Declares `reqwest::Client`, the asynchronous HTTP transport handle,
/// as an opaque outside type: the client stores and hands it around but
/// never looks inside it.
#[verifier::external_type_specification]
#[verifier::external_body]
pub struct ExClient(reqwest::Client);

/// Relies on `reqwest::Client::new` for the default transport handle.
/// The handle is opaque to the verified core; nothing is claimed of it.
/// Its construction can abort the process when no transport backend can
/// be initialized, a defensive, environment-level failure.
#[verifier::external_body]
fn default_transport() -> reqwest::Client {
    reqwest::Client::new()
}

/// Relies on `reqwest::Client`'s `Clone`: the handle is cheaply shareable;
/// nothing is claimed of the copy, which stays opaque.
pub assume_specification[ <reqwest::Client as Clone>::clone ](c: &reqwest::Client) -> reqwest::Client;

/// A HTTP client for making requests to a Frankfurter API.
pub struct ServerClient {
    url: ApiUrl,
    client: reqwest::Client,
}

/// A dispatch-ready request: the fully built endpoint URL, not yet sent.
pub struct PreparedRequest {
    pub url: String,
}

/// What one transport round trip yielded: a transport-level failure, or a
/// status code together with the response body read as text (empty when
/// the body could not be read).
pub enum TransportReply {
    Failed { cause: String },
    Received { status: u16, body: String },
}

/// Holds of HTTP success status codes.
pub open spec fn is_success_status(status: u16) -> bool {
    200 <= status < 300
}

/// The origin of the well-known fallback Frankfurter API URL.
pub open spec fn default_origin() -> Seq<char> {
    "https://api.frankfurter.dev"@
}

impl ServerClient {
    /// The model of the configured base URL.
    pub closed spec fn base(self) -> UrlModel {
        self.url@
    }

    /// A constructed client always has a well-formed base URL.
    pub open spec fn wf(self) -> bool {
        self.base().wf()
    }

    /// The full URL dispatched for a relative endpoint path and query
    /// parameters: the cleaned path appended to the base as one segment,
    /// followed by the query suffix.
    pub open spec fn endpoint_url_seq(
        self,
        endpoint: Seq<char>,
        params: Seq<(Seq<char>, Seq<char>)>,
    ) -> Seq<char> {
        (UrlModel {
            origin: self.base().origin,
            segments: push_segment(self.base().segments, without_slashes(endpoint)),
        }).str_spec() + query_suffix_seq(params)
    }

    /// Builds a client from a caller-supplied absolute URL, normalizing
    /// it and binding a default transport handle.
    pub fn new(url: ApiUrl) -> (r: Self)
        requires
            url@.wf(),
        ensures
            r.wf(),
            r.base().origin == url@.origin,
            r.base().segments == normalized_segments(url@.segments),
    {
        let mut u = url;
        u.normalize();
        ServerClient { url: u, client: default_transport() }
    }

    /// The bound transport handle.
    pub closed spec fn transport_handle(self) -> reqwest::Client {
        self.client
    }

    /// Consumes this client and returns one with the given transport
    /// handle; the base URL is unchanged.
    pub fn with_client(self, client: reqwest::Client) -> (r: Self)
        ensures
            r.base() == self.base(),
            r.transport_handle() == client,
    {
        ServerClient { url: self.url, client }
    }

    /// Hands out the transport handle, for the shell that performs the
    /// actual round trips.
    pub fn transport(&self) -> (r: &reqwest::Client)
        ensures
            r == self.transport_handle(),
    {
        &self.client
    }

    /// The textual form of the configured base URL.
    pub fn base_url_string(&self) -> (r: String)
        ensures
            r@ == self.base().str_spec(),
    {
        self.url.url_string()
    }

    /// The URL probed by the liveness check: the configured host with
    /// its path cleared.
    pub fn probe_url(&self) -> (r: String)
        ensures
            r@ == self.base().origin + seq!['/'],
    {
        self.url.root_string()
    }

    /// Appends the cleaned endpoint path to the base URL as one segment.
    fn build_endpoint(&self, endpoint: &str) -> (r: ApiUrl)
        requires
            self.wf(),
        ensures
            r@.origin == self.base().origin,
            r@.segments == push_segment(self.base().segments, without_slashes(endpoint@)),
    {
        let mut u = self.url.clone();
        u.push_path_segment(endpoint);
        u
    }

    /// Dispatch, deciding half one: validates the request and builds the
    /// full endpoint URL.  A validation failure is returned before any
    /// transport work could happen.
    pub fn prepare<R: ServerClientRequest>(&self, req: &R) -> (r: Result<PreparedRequest, Error>)
        requires
            self.wf(),
        ensures
            req.valid() ==> (r matches Ok(p) && p.url@ == self.endpoint_url_seq(
                req.url_spec(),
                req.params_spec(),
            )),
            !req.valid() ==> (r matches Err(e) && e == req.validation_error()
                && e.is_validation()),
    {
        match req.setup() {
            Result::Err(e) => {
                proof {
                    req.validation_error_is_validation();
                }
                Result::Err(e)
            },
            Result::Ok((endpoint, params)) => {
                let u = self.build_endpoint(endpoint.as_str());
                let mut url = u.url_string();
                push_query(&mut url, &params);
                proof {
                    assert(u@ =~= (UrlModel {
                        origin: self.base().origin,
                        segments: push_segment(self.base().segments, without_slashes(endpoint@)),
                    }));
                }
                Result::Ok(PreparedRequest { url })
            },
        }
    }

    /// Dispatch, deciding half two: classifies the transport reply that
    /// answered `url`.  Transport failures and non-success statuses
    /// become errors capturing their cause; a success status hands out
    /// the raw body for decoding.
    pub fn classify_reply(url: String, reply: TransportReply) -> (r: Result<String, Error>)
        ensures
            match reply {
                TransportReply::Failed { cause } => r == Result::<String, Error>::Err(
                    Error::Transport { cause },
                ),
                TransportReply::Received { status, body } => if is_success_status(status) {
                    r == Result::<String, Error>::Ok(body)
                } else {
                    r == Result::<String, Error>::Err(Error::InvalidResponse { status, body, url })
                },
            },
    {
        match reply {
            TransportReply::Failed { cause } => Result::Err(Error::Transport { cause }),
            TransportReply::Received { status, body } => {
                if 200 <= status && status < 300 {
                    Result::Ok(body)
                } else {
                    Result::Err(Error::InvalidResponse { status, body, url })
                }
            },
        }
    }

    /// The liveness decision: the server counts as available only for a
    /// successfully received success status; every failure collapses to
    /// `false`, never an error.
    pub fn probe_success(reply: &TransportReply) -> (r: bool)
        ensures
            r == (reply matches TransportReply::Received { status, .. } && is_success_status(
                *status,
            )),
    {
        match reply {
            TransportReply::Received { status, body: _ } => 200 <= *status && *status < 300,
            TransportReply::Failed { cause: _ } => false,
        }
    }
}

impl Default for ServerClient {
    /// Binds the fixed well-known Frankfurter API URL, already carrying
    /// its version segment, and a default transport handle.
    fn default() -> (r: Self)
        ensures
            r.wf(),
            r.base().origin == default_origin(),
            r.base().segments == seq![version_segment()],
    {
        let origin: String = "https://api.frankfurter.dev".to_owned();
        let mut segments: Vec<String> = Vec::new();
        segments.push("v1".to_owned());
        let url = ApiUrl::from_parts(origin, segments);
        proof {
            reveal_strlit("v1");
            assert("v1"@ =~= version_segment());
            assert(url@.segments =~= seq![version_segment()]);
        }
        ServerClient { url, client: default_transport() }
    }
}

impl Clone for ServerClient {
    /// A clone shares the same logical configuration.
    fn clone(&self) -> (r: Self)
        ensures
            r.base() == self.base(),
    {
        ServerClient { url: self.url.clone(), client: self.client.clone() }
    }
}

} // verus!
