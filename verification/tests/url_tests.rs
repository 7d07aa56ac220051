use frankfurter_client::ApiUrl;
use frankfurter_client::ServerClient;

fn url(origin: &str, segments: &[&str]) -> ApiUrl {
    let segs: Vec<String> = segments.iter().map(|s| s.to_string()).collect();
    ApiUrl::from_parts(origin.to_string(), segs)
}

#[test]
fn normalizes_without_trailing_slash() {
    let c = ServerClient::new(url("https://example.com", &["api"]));
    assert_eq!(c.base_url_string(), "https://example.com/api/v1");
}

#[test]
fn normalizes_one_trailing_slash() {
    let c = ServerClient::new(url("https://example.com", &["api", ""]));
    assert_eq!(c.base_url_string(), "https://example.com/api/v1");
}

#[test]
fn normalizes_many_trailing_slashes() {
    let c = ServerClient::new(url("https://example.com", &["api", "", "", ""]));
    assert_eq!(c.base_url_string(), "https://example.com/api/v1");
}

#[test]
fn normalizes_root_url() {
    let c = ServerClient::new(url("https://example.com", &[""]));
    assert_eq!(c.base_url_string(), "https://example.com/v1");
}

#[test]
fn normalizes_root_url_with_extra_slashes() {
    let c = ServerClient::new(url("https://example.com", &["", "", ""]));
    assert_eq!(c.base_url_string(), "https://example.com/v1");
}

#[test]
fn default_binds_well_known_url() {
    let c = ServerClient::default();
    assert_eq!(c.base_url_string(), "https://api.frankfurter.dev/v1");
}

#[test]
fn with_client_keeps_base_url() {
    let c = ServerClient::new(url("https://example.com", &["api", ""]));
    let rebound = c.with_client(reqwest::Client::new());
    assert_eq!(rebound.base_url_string(), "https://example.com/api/v1");
}

#[test]
fn clone_shares_configuration() {
    let c = ServerClient::new(url("https://example.com", &["api"]));
    let copy = c.clone();
    assert_eq!(copy.base_url_string(), c.base_url_string());
}

#[test]
fn probe_url_clears_path() {
    let c = ServerClient::new(url("https://example.com", &["api", "nested", ""]));
    assert_eq!(c.probe_url(), "https://example.com/");
}

#[test]
fn api_url_round_trips_to_text() {
    let u = url("https://example.com", &["api", "v2"]);
    assert_eq!(u.url_string(), "https://example.com/api/v2");
    let root = ApiUrl::from_origin("https://example.com".to_string());
    assert_eq!(root.url_string(), "https://example.com/");
}

#[test]
fn strip_slashes_prevents_segment_injection() {
    assert_eq!(frankfurter_client::text::strip_slashes("la/test"), "latest");
    assert_eq!(frankfurter_client::text::strip_slashes("///"), "");
    assert_eq!(frankfurter_client::text::strip_slashes("latest"), "latest");
}
