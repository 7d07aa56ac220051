use frankfurter_client::convert;
use frankfurter_client::currencies;
use frankfurter_client::date::Date;
use frankfurter_client::ApiUrl;
use frankfurter_client::Error;
use frankfurter_client::ServerClient;
use frankfurter_client::TransportReply;

/// A transport stub: records how often it was driven, and answers with a
/// fixed reply.
struct StubTransport {
    calls: usize,
    reply: fn() -> TransportReply,
}

impl StubTransport {
    fn send(&mut self) -> TransportReply {
        self.calls += 1;
        (self.reply)()
    }
}

fn example_client() -> ServerClient {
    let segs = vec!["api".to_string(), "".to_string()];
    ServerClient::new(ApiUrl::from_parts("https://example.com".to_string(), segs))
}

#[test]
fn scenario_conversion_url_composition() {
    let client = example_client();
    assert_eq!(client.base_url_string(), "https://example.com/api/v1");
    let req = convert::Request {
        date: None,
        amount: Some(10),
        base: Some("USD".to_string()),
        targets: Some(vec!["EUR".to_string()]),
    };
    let prepared = client.prepare(&req).expect("the request is valid");
    assert_eq!(prepared.url, "https://example.com/api/v1/latest?amount=10&from=USD&to=EUR");
}

#[test]
fn currencies_url_has_no_query_suffix() {
    let client = example_client();
    let prepared = client.prepare(&currencies::Request {}).expect("always valid");
    assert_eq!(prepared.url, "https://example.com/api/v1/currencies");
}

#[test]
fn invalid_request_reaches_no_transport() {
    let client = example_client();
    let bad = Date { year: 2024, month: 13, day: 1 };
    let req = convert::Request { date: Some(bad), amount: None, base: None, targets: None };
    let mut transport = StubTransport {
        calls: 0,
        reply: || TransportReply::Received { status: 200, body: String::new() },
    };
    // Dispatch as the asynchronous shell drives it: prepare first, and only
    // on success hand the URL to the transport.
    match client.prepare(&req) {
        Ok(prepared) => {
            let reply = transport.send();
            let _ = ServerClient::classify_reply(prepared.url, reply);
        }
        Err(e) => {
            assert_eq!(e, Error::InvalidDate { date: bad });
        }
    }
    assert_eq!(transport.calls, 0, "a validation failure must make no transport call");
}

#[test]
fn successful_reply_hands_out_the_body() {
    let client = example_client();
    let req = convert::Request {
        date: None,
        amount: None,
        base: Some("USD".to_string()),
        targets: None,
    };
    let prepared = client.prepare(&req).expect("the request is valid");
    let fixture = "{\"base\":\"USD\",\"date\":\"2024-01-05\"}".to_string();
    let reply = TransportReply::Received { status: 200, body: fixture.clone() };
    let body = ServerClient::classify_reply(prepared.url, reply).expect("a success status");
    assert_eq!(body, fixture);
}

#[test]
fn non_success_reply_captures_status_body_and_url() {
    let client = example_client();
    let req = currencies::Request {};
    let prepared = client.prepare(&req).expect("always valid");
    let dispatched_url = prepared.url.clone();
    let reply = TransportReply::Received { status: 404, body: "not found".to_string() };
    let err = ServerClient::classify_reply(prepared.url, reply).unwrap_err();
    assert_eq!(
        err,
        Error::InvalidResponse {
            status: 404,
            body: "not found".to_string(),
            url: dispatched_url,
        }
    );
}

#[test]
fn redirect_status_is_not_a_success() {
    let reply = TransportReply::Received { status: 301, body: String::new() };
    let err = ServerClient::classify_reply("https://example.com/".to_string(), reply);
    assert!(matches!(err, Err(Error::InvalidResponse { status: 301, .. })));
}

#[test]
fn transport_failure_is_wrapped_with_its_cause() {
    let reply = TransportReply::Failed { cause: "connection refused".to_string() };
    let err = ServerClient::classify_reply("https://example.com/".to_string(), reply).unwrap_err();
    assert_eq!(err, Error::Transport { cause: "connection refused".to_string() });
}

#[test]
fn probe_collapses_connection_error_to_false() {
    let mut transport = StubTransport {
        calls: 0,
        reply: || TransportReply::Failed { cause: "connection refused".to_string() },
    };
    let reply = transport.send();
    assert!(!ServerClient::probe_success(&reply));
}

#[test]
fn probe_accepts_success_with_empty_body() {
    let reply = TransportReply::Received { status: 200, body: String::new() };
    assert!(ServerClient::probe_success(&reply));
}

#[test]
fn probe_rejects_error_status() {
    let reply = TransportReply::Received { status: 503, body: String::new() };
    assert!(!ServerClient::probe_success(&reply));
}
