//! Transport layer: owns the base URL and the HTTP connection pool, plans
//! requests (verb, resolved URL, JSON body, content headers) and classifies
//! raw responses into typed results or errors.
//!
//! Performing a planned request is left to the embedding application; what it
//! observed comes back as an [`Exchange`], which [`conclude`] classifies.

use crate::errors::{result_model, ErrorModel, UCRSError, UCRSResult};
use vstd::prelude::*;

verus! {

/// HTTP verbs used by the catalog service.
#[derive(Debug, Clone, Copy, PartialEq, Eq, Structural)]
pub enum HttpMethod {
    Get,
    Post,
    Patch,
    Delete,
}

impl HttpMethod {
    /// The verb's name on the wire.
    pub fn verb(&self) -> (r: &'static str)
        ensures
            self is Get ==> r@ == "GET"@,
            self is Post ==> r@ == "POST"@,
            self is Patch ==> r@ == "PATCH"@,
            self is Delete ==> r@ == "DELETE"@,
    {
        match self {
            HttpMethod::Get => "GET",
            HttpMethod::Post => "POST",
            HttpMethod::Patch => "PATCH",
            HttpMethod::Delete => "DELETE",
        }
    }
}

/// A fully planned HTTP request: everything the embedding application needs
/// to perform the call, and nothing it has to decide itself.
#[derive(Debug, Clone, PartialEq, Eq)]
pub struct HttpRequest {
    pub method: HttpMethod,
    /// The absolute URL, the route already resolved against the base URL.
    pub url: String,
    /// The JSON text to send as the request body, if any.
    pub body: Option<String>,
    /// Whether to send `Content-Type: application/json` and
    /// `Accept: application/json`; set exactly when a body is present.
    pub json_headers: bool,
}

/// The mathematical value of an [`HttpRequest`].
pub struct HttpRequestModel {
    pub method: HttpMethod,
    pub url: Seq<char>,
    pub body: Option<Seq<char>>,
    pub json_headers: bool,
}

impl View for HttpRequest {
    type V = HttpRequestModel;

    open spec fn view(&self) -> HttpRequestModel {
        HttpRequestModel {
            method: self.method,
            url: self.url@,
            body: self.body.deep_view(),
            json_headers: self.json_headers,
        }
    }
}

/// What the embedding application observed when it performed a planned
/// request: either the request never produced a response, or a status code
/// arrived together with the raw body text and the attempt to decode that
/// text as the expected response type.
pub enum Exchange<T> {
    /// No HTTP response: connection refused, timeout, TLS failure; carries a
    /// description of the cause.
    Failed(String),
    Responded { status: u16, body: String, decoded: Result<T, String> },
}

/// The success range of HTTP status codes.
pub open spec fn spec_is_success(status: u16) -> bool {
    200 <= status < 300
}

/// Whether a status code lies in the success range.
pub fn is_success(status: u16) -> (r: bool)
    ensures
        r == spec_is_success(status),
{
    200 <= status && status < 300
}

/// How the transport layer reads an exchange: a transport failure surfaces
/// as a request error; a status outside the success range fails with the
/// status and the raw body; on a success status the decoded value is
/// returned, a decode failure surfacing as a JSON-parsing error.
pub open spec fn spec_conclude<T>(ex: Exchange<T>) -> Result<T, ErrorModel> {
    match ex {
        Exchange::Failed(m) => Result::Err(ErrorModel::RequestError(m@)),
        Exchange::Responded { status, body, decoded } => if !spec_is_success(status) {
            Result::Err(ErrorModel::RequestErrorWithResponse(status as int, body@))
        } else {
            match decoded {
                Result::Ok(t) => Result::Ok(t),
                Result::Err(m) => Result::Err(ErrorModel::JSONParsingError(m@)),
            }
        },
    }
}

/// Classifies one exchange, as [`spec_conclude`] says.
pub fn conclude<T>(ex: Exchange<T>) -> (r: UCRSResult<T>)
    ensures
        result_model(r) == spec_conclude(ex),
{
    match ex {
        Exchange::Failed(m) => Err(UCRSError::RequestError(m)),
        Exchange::Responded { status, body, decoded } => {
            if !is_success(status) {
                Err(UCRSError::RequestErrorWithResponse(status, body))
            } else {
                match decoded {
                    Ok(t) => Ok(t),
                    Err(m) => Err(UCRSError::JSONParsingError(m)),
                }
            }
        },
    }
}

#[verifier::external_type_specification]
#[verifier::external_body]
pub struct ExClient(reqwest::Client);

#[verifier::external_type_specification]
#[verifier::external_body]
#[verifier::reject_recursive_types(T)]
pub struct ExHeaderMap<T>(reqwest::header::HeaderMap<T>);

#[verifier::external_type_specification]
#[verifier::external_body]
pub struct ExHeaderValue(reqwest::header::HeaderValue);

/// What `url::Url::parse` makes of a string: `None` where parsing fails,
/// otherwise the parsed URL's normalized serialization.  The outcome depends
/// on the string alone.
pub uninterp spec fn url_norm(s: Seq<char>) -> Option<Seq<char>>;

/// What parsing `base` and joining `route` against it yields: `None` where
/// either step fails, otherwise the resolved URL's serialization.  The
/// outcome depends on the two strings alone.
pub uninterp spec fn url_resolve(base: Seq<char>, route: Seq<char>) -> Option<Seq<char>>;

/// Relies on `url::Url::parse`: validates an absolute URL and returns its
/// normalized serialization; the outcome depends on the text alone.  On
/// failure the url crate's error description is returned.
#[verifier::external_body]
fn parse_base_url(s: &str) -> (r: Result<String, String>)
    ensures
        r is Ok <==> url_norm(s@) is Some,
        r matches Ok(u) ==> url_norm(s@) matches Some(n) && u@ == n,
{
    match url::Url::parse(s) {
        Ok(u) => Ok(String::from(u)),
        Err(e) => Err(format!("{}", e)),
    }
}

/// Relies on `url::Url::parse` and `url::Url::join`, one resolution step:
/// both compute from their string arguments alone; a route starting with `/`
/// replaces the base URL's path and query.  On failure the url crate's error
/// description is returned.
#[verifier::external_body]
fn resolve_route(base: &str, route: &str) -> (r: Result<String, String>)
    ensures
        r is Ok <==> url_resolve(base@, route@) is Some,
        r matches Ok(u) ==> url_resolve(base@, route@) matches Some(n) && u@ == n,
{
    match url::Url::parse(base) {
        Ok(b) => match b.join(route) {
            Ok(u) => Ok(String::from(u)),
            Err(e) => Err(format!("{}", e)),
        },
        Err(e) => Err(format!("{}", e)),
    }
}

/// Relies on `reqwest::ClientBuilder`: `danger_accept_invalid_certs(true)`
/// disables certificate validation and `build` constructs the connection
/// pool.  Building can fail for reasons outside the arguments (the TLS
/// backend), so nothing is promised of the outcome.
#[verifier::external_body]
fn build_http_client(disable_ssl: bool) -> (r: Result<reqwest::Client, String>) {
    reqwest::Client::builder().danger_accept_invalid_certs(disable_ssl).build().map_err(
        |e| format!("{}", e),
    )
}

/// Relies on `reqwest::ClientBuilder`: as [`build_http_client`], with
/// `default_headers` installing headers that the pool sends on every
/// request.  Building can fail for reasons outside the arguments, so
/// nothing is promised of the outcome.
#[verifier::external_body]
fn build_http_client_with_headers(
    disable_ssl: bool,
    headers: reqwest::header::HeaderMap,
) -> (r: Result<reqwest::Client, String>) {
    reqwest::Client::builder().danger_accept_invalid_certs(disable_ssl).default_headers(
        headers,
    ).build().map_err(|e| format!("{}", e))
}

/// The transport client: an immutable base URL and the shared HTTP
/// connection pool.
pub struct RequestClient {
    /// The base URL in its normalized serialization.
    pub base_url: String,
    http: reqwest::Client,
}

/// A transport client's mathematical value is its base URL.
impl View for RequestClient {
    type V = Seq<char>;

    closed spec fn view(&self) -> Seq<char> {
        self.base_url@
    }
}

impl RequestClient {
    /// Parses and stores the base URL and constructs the connection pool;
    /// `disable_ssl` opts out of certificate validation, for local or test
    /// servers only.
    pub fn new(base_url: &str, disable_ssl: bool) -> (r: UCRSResult<Self>)
        ensures
            url_norm(base_url@) is None ==> (r matches Err(e) && e@
                matches ErrorModel::MalformedURL(_)),
            r matches Ok(c) ==> url_norm(base_url@) matches Some(n) && c@ == n,
            r matches Err(e) ==> (e@ matches ErrorModel::MalformedURL(_) || e@
                matches ErrorModel::ClientBuildError(_)),
            url_norm(base_url@) is Some ==> (r is Ok || r->Err_0@ matches ErrorModel::ClientBuildError(
                _,
            )),
    {
        let normalized = match parse_base_url(base_url) {
            Ok(u) => u,
            Err(m) => {
                return Err(UCRSError::MalformedURL(m));
            },
        };
        let http = match build_http_client(disable_ssl) {
            Ok(c) => c,
            Err(m) => {
                return Err(UCRSError::ClientBuildError(m));
            },
        };
        Ok(RequestClient { base_url: normalized, http })
    }

    /// As [`RequestClient::new`], with default headers that the pool sends
    /// on every request.
    pub fn new_with_headers(
        base_url: &str,
        disable_ssl: bool,
        headers: reqwest::header::HeaderMap,
    ) -> (r: UCRSResult<Self>)
        ensures
            url_norm(base_url@) is None ==> (r matches Err(e) && e@
                matches ErrorModel::MalformedURL(_)),
            r matches Ok(c) ==> url_norm(base_url@) matches Some(n) && c@ == n,
            r matches Err(e) ==> (e@ matches ErrorModel::MalformedURL(_) || e@
                matches ErrorModel::ClientBuildError(_)),
            url_norm(base_url@) is Some ==> (r is Ok || r->Err_0@ matches ErrorModel::ClientBuildError(
                _,
            )),
    {
        let normalized = match parse_base_url(base_url) {
            Ok(u) => u,
            Err(m) => {
                return Err(UCRSError::MalformedURL(m));
            },
        };
        let http = match build_http_client_with_headers(disable_ssl, headers) {
            Ok(c) => c,
            Err(m) => {
                return Err(UCRSError::ClientBuildError(m));
            },
        };
        Ok(RequestClient { base_url: normalized, http })
    }

    /// Stores the base URL and adopts an already-built connection pool.
    pub fn new_with_client(base_url: &str, client: reqwest::Client) -> (r: UCRSResult<Self>)
        ensures
            r is Ok <==> url_norm(base_url@) is Some,
            r matches Ok(c) ==> url_norm(base_url@) matches Some(n) && c@ == n,
            r matches Err(e) ==> e@ matches ErrorModel::MalformedURL(_),
    {
        match parse_base_url(base_url) {
            Ok(u) => Ok(RequestClient { base_url: u, http: client }),
            Err(m) => Err(UCRSError::MalformedURL(m)),
        }
    }

    /// The shared connection pool, for the code that performs planned
    /// requests.
    pub fn http_client(&self) -> &reqwest::Client {
        &self.http
    }

    /// Plans one request: resolves the route against the base URL and fixes
    /// verb, body and content headers.  The content headers are present
    /// exactly when a body is.
    pub fn request(&self, method: HttpMethod, route: &str, body: Option<String>) -> (r: UCRSResult<
        HttpRequest,
    >)
        ensures
            url_resolve(self@, route@) matches Some(u) ==> r matches Ok(req) && req@
                == (HttpRequestModel {
                method,
                url: u,
                body: body.deep_view(),
                json_headers: body is Some,
            }),
            url_resolve(self@, route@) is None ==> (r matches Err(e) && e@
                matches ErrorModel::MalformedURL(_)),
    {
        match resolve_route(self.base_url.as_str(), route) {
            Ok(u) => {
                let json_headers = body.is_some();
                Ok(HttpRequest { method, url: u, body, json_headers })
            },
            Err(m) => Err(UCRSError::MalformedURL(m)),
        }
    }

    /// Plans a GET request for a route.
    pub fn get(&self, route: &str, body: Option<String>) -> (r: UCRSResult<HttpRequest>)
        ensures
            url_resolve(self@, route@) matches Some(u) ==> r matches Ok(req) && req@
                == (HttpRequestModel {
                method: HttpMethod::Get,
                url: u,
                body: body.deep_view(),
                json_headers: body is Some,
            }),
            url_resolve(self@, route@) is None ==> (r matches Err(e) && e@
                matches ErrorModel::MalformedURL(_)),
    {
        self.request(HttpMethod::Get, route, body)
    }

    /// Plans a POST request for a route.
    pub fn post(&self, route: &str, body: Option<String>) -> (r: UCRSResult<HttpRequest>)
        ensures
            url_resolve(self@, route@) matches Some(u) ==> r matches Ok(req) && req@
                == (HttpRequestModel {
                method: HttpMethod::Post,
                url: u,
                body: body.deep_view(),
                json_headers: body is Some,
            }),
            url_resolve(self@, route@) is None ==> (r matches Err(e) && e@
                matches ErrorModel::MalformedURL(_)),
    {
        self.request(HttpMethod::Post, route, body)
    }

    /// Plans a DELETE request for a route.
    pub fn delete(&self, route: &str, body: Option<String>) -> (r: UCRSResult<HttpRequest>)
        ensures
            url_resolve(self@, route@) matches Some(u) ==> r matches Ok(req) && req@
                == (HttpRequestModel {
                method: HttpMethod::Delete,
                url: u,
                body: body.deep_view(),
                json_headers: body is Some,
            }),
            url_resolve(self@, route@) is None ==> (r matches Err(e) && e@
                matches ErrorModel::MalformedURL(_)),
    {
        self.request(HttpMethod::Delete, route, body)
    }

    /// Plans a PATCH request for a route.
    pub fn patch(&self, route: &str, body: Option<String>) -> (r: UCRSResult<HttpRequest>)
        ensures
            url_resolve(self@, route@) matches Some(u) ==> r matches Ok(req) && req@
                == (HttpRequestModel {
                method: HttpMethod::Patch,
                url: u,
                body: body.deep_view(),
                json_headers: body is Some,
            }),
            url_resolve(self@, route@) is None ==> (r matches Err(e) && e@
                matches ErrorModel::MalformedURL(_)),
    {
        self.request(HttpMethod::Patch, route, body)
    }
}

} // verus!
