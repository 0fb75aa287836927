use unitycatalog_rs::errors::UCRSError;
use unitycatalog_rs::request::{conclude, Exchange, HttpMethod, RequestClient};

fn client() -> RequestClient {
    RequestClient::new("http://localhost:8080", true).unwrap()
}

#[test]
fn new_rejects_a_malformed_url() {
    let r = RequestClient::new("not a url", false);
    assert!(matches!(r, Err(UCRSError::MalformedURL(_))));
}

#[test]
fn new_normalizes_the_base_url() {
    let rc = client();
    assert_eq!(rc.base_url, "http://localhost:8080/");
}

#[test]
fn new_with_headers_keeps_the_base_url_contract() {
    let mut headers = reqwest::header::HeaderMap::new();
    headers.insert(
        reqwest::header::AUTHORIZATION,
        reqwest::header::HeaderValue::from_static("Bearer SECRET-REDACTED"),
    );
    let rc = RequestClient::new_with_headers("http://localhost:8080", true, headers).unwrap();
    assert_eq!(rc.base_url, "http://localhost:8080/");
    let bad = RequestClient::new_with_headers("::", false, reqwest::header::HeaderMap::new());
    assert!(matches!(bad, Err(UCRSError::MalformedURL(_))));
}

#[test]
fn new_with_client_adopts_the_pool() {
    let pool = reqwest::Client::builder().build().unwrap();
    let rc = RequestClient::new_with_client("http://localhost:8080", pool).unwrap();
    assert_eq!(rc.base_url, "http://localhost:8080/");
}

#[test]
fn request_resolves_an_absolute_route() {
    let rc = client();
    let req = rc.get("/api/2.1/unity-catalog/catalogs", None).unwrap();
    assert_eq!(req.url, "http://localhost:8080/api/2.1/unity-catalog/catalogs");
    assert_eq!(req.method, HttpMethod::Get);
    assert!(req.body.is_none());
    assert!(!req.json_headers);
}

#[test]
fn an_absolute_route_replaces_the_base_path() {
    let rc = RequestClient::new("http://localhost:8080/some/prefix", true).unwrap();
    let req = rc.get("/api/2.1/unity-catalog/catalogs", None).unwrap();
    assert_eq!(req.url, "http://localhost:8080/api/2.1/unity-catalog/catalogs");
}

#[test]
fn a_body_brings_the_json_headers() {
    let rc = client();
    let req = rc.post("/api/2.1/unity-catalog/catalogs", Some("{}".to_string())).unwrap();
    assert_eq!(req.method, HttpMethod::Post);
    assert_eq!(req.body.as_deref(), Some("{}"));
    assert!(req.json_headers);
}

#[test]
fn verbs_name_themselves() {
    assert_eq!(HttpMethod::Get.verb(), "GET");
    assert_eq!(HttpMethod::Post.verb(), "POST");
    assert_eq!(HttpMethod::Patch.verb(), "PATCH");
    assert_eq!(HttpMethod::Delete.verb(), "DELETE");
}

#[test]
fn conclude_reads_a_transport_failure() {
    let r: Result<String, _> = conclude(Exchange::Failed("connection refused".to_string()));
    assert_eq!(r, Err(UCRSError::RequestError("connection refused".to_string())));
}

#[test]
fn conclude_reads_a_failed_status() {
    let r: Result<String, _> = conclude(Exchange::Responded {
        status: 500,
        body: "boom".to_string(),
        decoded: Err("ignored".to_string()),
    });
    assert_eq!(r, Err(UCRSError::RequestErrorWithResponse(500, "boom".to_string())));
}

#[test]
fn conclude_returns_the_decoded_value_on_success() {
    let r = conclude(Exchange::Responded {
        status: 200,
        body: "\"x\"".to_string(),
        decoded: Ok("x".to_string()),
    });
    assert_eq!(r, Ok("x".to_string()));
}

#[test]
fn conclude_reads_a_decode_failure_on_success_status() {
    let r: Result<String, _> = conclude(Exchange::Responded {
        status: 200,
        body: "200 OK".to_string(),
        decoded: Err("expected value".to_string()),
    });
    assert_eq!(r, Err(UCRSError::JSONParsingError("expected value".to_string())));
}
