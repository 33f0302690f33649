//! The endpoint classifier: a pure, total function from a request's host,
//! method and path to the `(ApiType, Endpoint)` pair that names its
//! rate-limit category. Rules are ordered and the first match wins;
//! unrecognized input falls through to a general or unknown category,
//! never to an error.

use crate::strutil::contains_sub;
use crate::strutil::starts_with;
use crate::strutil::str_contains;
use crate::strutil::str_eq;
use crate::strutil::str_starts_with;
use vstd::prelude::*;

verus! {

/// The target service of a request.
#[derive(Debug, Clone, Copy, PartialEq, Eq, Hash, Structural)]
pub enum ApiType {
    /// CLOB trading API.
    Clob,
    /// Gamma metadata API.
    Gamma,
    /// Data API.
    Data,
    /// Bridge deposit API.
    Bridge,
    /// Unrecognized service.
    Unknown,
}

/// The specific operation within a service.
#[derive(Debug, Clone, Copy, PartialEq, Eq, Hash, Structural)]
pub enum Endpoint {
    /// CLOB order book.
    ClobBook,
    /// CLOB price.
    ClobPrice,
    /// CLOB midpoint.
    ClobMidpoint,
    /// CLOB order placement.
    ClobPostOrder,
    /// CLOB order cancellation.
    ClobDeleteOrder,
    /// CLOB submit/relayer.
    ClobSubmit,
    /// CLOB user PNL.
    ClobUserPnl,
    /// Any other CLOB operation.
    ClobGeneral,
    /// Gamma events.
    GammaEvents,
    /// Gamma markets.
    GammaMarkets,
    /// Gamma per-market events listing.
    GammaMarketsEvents,
    /// Gamma comments.
    GammaComments,
    /// Gamma tags.
    GammaTags,
    /// Gamma search.
    GammaSearch,
    /// Any other Gamma operation.
    GammaGeneral,
    /// Data trades.
    DataTrades,
    /// Data positions.
    DataPositions,
    /// Data closed positions.
    DataClosedPositions,
    /// Any other Data operation.
    DataGeneral,
    /// Any Bridge operation.
    BridgeGeneral,
    /// Operation on an unrecognized service.
    Unknown,
}

/// Which service a request targets: decided by exact match against the
/// known production hostnames, or, for the localhost test host, by a
/// path prefix. A host that merely contains a production hostname is not
/// that service.
pub open spec fn api_of(host: Seq<char>, path: Seq<char>) -> ApiType {
    if host == "clob.polymarket.com"@ || (host == "localhost"@ && starts_with(path, "/clob"@)) {
        ApiType::Clob
    } else if host == "gamma-api.polymarket.com"@ || (host == "localhost"@ && starts_with(
        path,
        "/gamma"@,
    )) {
        ApiType::Gamma
    } else if host == "data-api.polymarket.com"@ || (host == "localhost"@ && starts_with(
        path,
        "/data"@,
    )) {
        ApiType::Data
    } else if host == "bridge.polymarket.com"@ || (host == "localhost"@ && starts_with(
        path,
        "/bridge"@,
    )) {
        ApiType::Bridge
    } else {
        ApiType::Unknown
    }
}

/// The ordered CLOB rules, first match wins.
pub open spec fn clob_endpoint_of(method: Seq<char>, path: Seq<char>) -> Endpoint {
    if method == "GET"@ && starts_with(path, "/book"@) {
        Endpoint::ClobBook
    } else if method == "GET"@ && starts_with(path, "/price"@) && !starts_with(path, "/prices"@) {
        Endpoint::ClobPrice
    } else if method == "GET"@ && starts_with(path, "/midpoint"@) {
        Endpoint::ClobMidpoint
    } else if method == "POST"@ && (path == "/order"@ || path == "/orders"@) {
        Endpoint::ClobPostOrder
    } else if method == "DELETE"@ && starts_with(path, "/order"@) {
        Endpoint::ClobDeleteOrder
    } else if method == "POST"@ && path == "/submit"@ {
        Endpoint::ClobSubmit
    } else if contains_sub(path, "rewards"@) && contains_sub(path, "user"@) {
        Endpoint::ClobUserPnl
    } else {
        Endpoint::ClobGeneral
    }
}

/// The ordered Gamma rules, first match wins. A markets path that also
/// mentions `/events` is the per-market events listing, not plain markets:
/// the more specific test comes first.
pub open spec fn gamma_endpoint_of(method: Seq<char>, path: Seq<char>) -> Endpoint {
    if method == "GET"@ && starts_with(path, "/events"@) {
        Endpoint::GammaEvents
    } else if method == "GET"@ && starts_with(path, "/markets"@) {
        if contains_sub(path, "/events"@) {
            Endpoint::GammaMarketsEvents
        } else {
            Endpoint::GammaMarkets
        }
    } else if method == "GET"@ && starts_with(path, "/comments"@) {
        Endpoint::GammaComments
    } else if method == "GET"@ && starts_with(path, "/tags"@) {
        Endpoint::GammaTags
    } else if method == "GET"@ && (path == "/public-search"@ || path == "/search"@) {
        Endpoint::GammaSearch
    } else {
        Endpoint::GammaGeneral
    }
}

/// The ordered Data rules, first match wins: exact-path tests only.
pub open spec fn data_endpoint_of(method: Seq<char>, path: Seq<char>) -> Endpoint {
    if method == "GET"@ && path == "/trades"@ {
        Endpoint::DataTrades
    } else if method == "GET"@ && path == "/positions"@ {
        Endpoint::DataPositions
    } else if method == "GET"@ && path == "/closed-positions"@ {
        Endpoint::DataClosedPositions
    } else {
        Endpoint::DataGeneral
    }
}

/// The endpoint within the already-chosen service.
pub open spec fn endpoint_of(api: ApiType, method: Seq<char>, path: Seq<char>) -> Endpoint {
    match api {
        ApiType::Clob => clob_endpoint_of(method, path),
        ApiType::Gamma => gamma_endpoint_of(method, path),
        ApiType::Data => data_endpoint_of(method, path),
        ApiType::Bridge => Endpoint::BridgeGeneral,
        ApiType::Unknown => Endpoint::Unknown,
    }
}

/// The full classification of a request: a pure function of host, method
/// and path.
pub open spec fn classify_spec(host: Seq<char>, method: Seq<char>, path: Seq<char>) -> (
    ApiType,
    Endpoint,
) {
    let api = api_of(host, path);
    (api, endpoint_of(api, method, path))
}

/// Classify a request by its host, HTTP method and URL path.
///
/// Total and deterministic: every input yields exactly
/// `classify_spec(host@, method@, path@)`, never an error.
pub fn classify(host: &str, method: &str, path: &str) -> (r: (ApiType, Endpoint))
    ensures
        r == classify_spec(host@, method@, path@),
{
    let api = if str_eq(host, "clob.polymarket.com") || (str_eq(host, "localhost")
        && str_starts_with(path, "/clob")) {
        ApiType::Clob
    } else if str_eq(host, "gamma-api.polymarket.com") || (str_eq(host, "localhost")
        && str_starts_with(path, "/gamma")) {
        ApiType::Gamma
    } else if str_eq(host, "data-api.polymarket.com") || (str_eq(host, "localhost")
        && str_starts_with(path, "/data")) {
        ApiType::Data
    } else if str_eq(host, "bridge.polymarket.com") || (str_eq(host, "localhost")
        && str_starts_with(path, "/bridge")) {
        ApiType::Bridge
    } else {
        ApiType::Unknown
    };
    let endpoint = match api {
        ApiType::Clob => classify_clob(method, path),
        ApiType::Gamma => classify_gamma(method, path),
        ApiType::Data => classify_data(method, path),
        ApiType::Bridge => Endpoint::BridgeGeneral,
        ApiType::Unknown => Endpoint::Unknown,
    };
    (api, endpoint)
}

/// The CLOB rule list of `clob_endpoint_of`, executed.
fn classify_clob(method: &str, path: &str) -> (r: Endpoint)
    ensures
        r == clob_endpoint_of(method@, path@),
{
    if str_eq(method, "GET") && str_starts_with(path, "/book") {
        Endpoint::ClobBook
    } else if str_eq(method, "GET") && str_starts_with(path, "/price") && !str_starts_with(
        path,
        "/prices",
    ) {
        Endpoint::ClobPrice
    } else if str_eq(method, "GET") && str_starts_with(path, "/midpoint") {
        Endpoint::ClobMidpoint
    } else if str_eq(method, "POST") && (str_eq(path, "/order") || str_eq(path, "/orders")) {
        Endpoint::ClobPostOrder
    } else if str_eq(method, "DELETE") && str_starts_with(path, "/order") {
        Endpoint::ClobDeleteOrder
    } else if str_eq(method, "POST") && str_eq(path, "/submit") {
        Endpoint::ClobSubmit
    } else if str_contains(path, "rewards") && str_contains(path, "user") {
        Endpoint::ClobUserPnl
    } else {
        Endpoint::ClobGeneral
    }
}

/// The Gamma rule list of `gamma_endpoint_of`, executed.
fn classify_gamma(method: &str, path: &str) -> (r: Endpoint)
    ensures
        r == gamma_endpoint_of(method@, path@),
{
    if str_eq(method, "GET") && str_starts_with(path, "/events") {
        Endpoint::GammaEvents
    } else if str_eq(method, "GET") && str_starts_with(path, "/markets") {
        if str_contains(path, "/events") {
            Endpoint::GammaMarketsEvents
        } else {
            Endpoint::GammaMarkets
        }
    } else if str_eq(method, "GET") && str_starts_with(path, "/comments") {
        Endpoint::GammaComments
    } else if str_eq(method, "GET") && str_starts_with(path, "/tags") {
        Endpoint::GammaTags
    } else if str_eq(method, "GET") && (str_eq(path, "/public-search") || str_eq(
        path,
        "/search",
    )) {
        Endpoint::GammaSearch
    } else {
        Endpoint::GammaGeneral
    }
}

/// The Data rule list of `data_endpoint_of`, executed.
fn classify_data(method: &str, path: &str) -> (r: Endpoint)
    ensures
        r == data_endpoint_of(method@, path@),
{
    if str_eq(method, "GET") && str_eq(path, "/trades") {
        Endpoint::DataTrades
    } else if str_eq(method, "GET") && str_eq(path, "/positions") {
        Endpoint::DataPositions
    } else if str_eq(method, "GET") && str_eq(path, "/closed-positions") {
        Endpoint::DataClosedPositions
    } else {
        Endpoint::DataGeneral
    }
}

/// Law: classification is deterministic. Two calls on the same host,
/// method and path name the same category pair.
pub proof fn lemma_classify_deterministic(
    h1: Seq<char>,
    m1: Seq<char>,
    p1: Seq<char>,
    h2: Seq<char>,
    m2: Seq<char>,
    p2: Seq<char>,
)
    requires
        h1 == h2,
        m1 == m2,
        p1 == p2,
    ensures
        classify_spec(h1, m1, p1) == classify_spec(h2, m2, p2),
{
}

/// The host (empty when the URL has none) and the path of a well-formed
/// URL, `None` when the text is not a URL. Stands for what
/// `url::Url::parse` with `host_str` and `path` compute; the result
/// depends on the URL text alone.
pub uninterp spec fn url_parts_of(url: Seq<char>) -> Option<(Seq<char>, Seq<char>)>;

/// Relies on `url::Url::parse` (the type `reqwest::Url` re-exports),
/// `Url::host_str` and `Url::path`: parsing a URL and reading its host
/// and path is a function of the URL text alone, named `url_parts_of`.
#[verifier::external_body]
fn split_url(url: &str) -> (r: Option<(String, String)>)
    ensures
        r is Some <==> url_parts_of(url@) is Some,
        r matches Some(hp) ==> url_parts_of(url@) == Some((hp.0@, hp.1@)),
{
    match reqwest::Url::parse(url) {
        Ok(u) => Some((u.host_str().unwrap_or("").to_string(), u.path().to_string())),
        Err(_) => None,
    }
}

/// What `detect_endpoint` returns: the classification of the URL's host
/// and path, or the unknown pair when the text is not a URL.
pub open spec fn detect_spec(url: Seq<char>, method: Seq<char>) -> (ApiType, Endpoint) {
    match url_parts_of(url) {
        Some(hp) => classify_spec(hp.0, method, hp.1),
        None => (ApiType::Unknown, Endpoint::Unknown),
    }
}

/// Detect the API type and specific endpoint of a request from its URL
/// text and HTTP method.
pub fn detect_endpoint(url: &str, method: &str) -> (r: (ApiType, Endpoint))
    ensures
        r == detect_spec(url@, method@),
{
    match split_url(url) {
        Some(hp) => classify(hp.0.as_str(), method, hp.1.as_str()),
        None => (ApiType::Unknown, Endpoint::Unknown),
    }
}

/// Law: detection from URL text is deterministic as well — the same URL
/// and method always name the same category pair.
pub proof fn lemma_detect_deterministic(u1: Seq<char>, m1: Seq<char>, u2: Seq<char>, m2: Seq<char>)
    requires
        u1 == u2,
        m1 == m2,
    ensures
        detect_spec(u1, m1) == detect_spec(u2, m2),
{
}

} // verus!
