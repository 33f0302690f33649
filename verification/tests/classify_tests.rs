use polymarket_rate_limit::ApiType;
use polymarket_rate_limit::Endpoint;
use polymarket_rate_limit::classify;
use polymarket_rate_limit::detect_endpoint;

#[test]
fn detect_clob_book_endpoint() {
    let (api, endpoint) = detect_endpoint("https://clob.polymarket.com/book?token_id=123", "GET");
    assert_eq!(api, ApiType::Clob);
    assert_eq!(endpoint, Endpoint::ClobBook);
}

#[test]
fn detect_clob_post_order() {
    let (api, endpoint) = detect_endpoint("https://clob.polymarket.com/order", "POST");
    assert_eq!(api, ApiType::Clob);
    assert_eq!(endpoint, Endpoint::ClobPostOrder);
}

#[test]
fn detect_gamma_events() {
    let (api, endpoint) = detect_endpoint("https://gamma-api.polymarket.com/events", "GET");
    assert_eq!(api, ApiType::Gamma);
    assert_eq!(endpoint, Endpoint::GammaEvents);
}

#[test]
fn detect_data_trades() {
    let (api, endpoint) = detect_endpoint("https://data-api.polymarket.com/trades", "GET");
    assert_eq!(api, ApiType::Data);
    assert_eq!(endpoint, Endpoint::DataTrades);
}

#[test]
fn detect_gamma_markets_events_wins_over_markets() {
    let (api, endpoint) = detect_endpoint("https://gamma-api.polymarket.com/markets/123/events", "GET");
    assert_eq!(api, ApiType::Gamma);
    assert_eq!(endpoint, Endpoint::GammaMarketsEvents);
}

#[test]
fn detect_gamma_plain_markets() {
    let (api, endpoint) = detect_endpoint("https://gamma-api.polymarket.com/markets/123", "GET");
    assert_eq!(api, ApiType::Gamma);
    assert_eq!(endpoint, Endpoint::GammaMarkets);
}

#[test]
fn classify_is_deterministic() {
    let first = classify("clob.polymarket.com", "GET", "/book");
    let second = classify("clob.polymarket.com", "GET", "/book");
    assert_eq!(first, second);
}

#[test]
fn clob_price_is_not_prices() {
    let (_, price) = classify("clob.polymarket.com", "GET", "/price?token_id=1");
    assert_eq!(price, Endpoint::ClobPrice);
    let (_, prices) = classify("clob.polymarket.com", "GET", "/prices");
    assert_eq!(prices, Endpoint::ClobGeneral);
}

#[test]
fn clob_midpoint_and_submit_and_delete() {
    let (_, midpoint) = classify("clob.polymarket.com", "GET", "/midpoint");
    assert_eq!(midpoint, Endpoint::ClobMidpoint);
    let (_, submit) = classify("clob.polymarket.com", "POST", "/submit");
    assert_eq!(submit, Endpoint::ClobSubmit);
    let (_, delete) = classify("clob.polymarket.com", "DELETE", "/order/42");
    assert_eq!(delete, Endpoint::ClobDeleteOrder);
    let (_, orders) = classify("clob.polymarket.com", "POST", "/orders");
    assert_eq!(orders, Endpoint::ClobPostOrder);
}

#[test]
fn clob_user_pnl_matches_any_method() {
    let (_, pnl) = classify("clob.polymarket.com", "POST", "/rewards/user/42");
    assert_eq!(pnl, Endpoint::ClobUserPnl);
}

#[test]
fn gamma_search_paths_are_exact() {
    let (_, search) = classify("gamma-api.polymarket.com", "GET", "/search");
    assert_eq!(search, Endpoint::GammaSearch);
    let (_, public_search) = classify("gamma-api.polymarket.com", "GET", "/public-search");
    assert_eq!(public_search, Endpoint::GammaSearch);
    let (_, other) = classify("gamma-api.polymarket.com", "GET", "/searches");
    assert_eq!(other, Endpoint::GammaGeneral);
}

#[test]
fn data_paths_are_exact() {
    let (_, positions) = classify("data-api.polymarket.com", "GET", "/positions");
    assert_eq!(positions, Endpoint::DataPositions);
    let (_, closed) = classify("data-api.polymarket.com", "GET", "/closed-positions");
    assert_eq!(closed, Endpoint::DataClosedPositions);
    let (_, trades_sub) = classify("data-api.polymarket.com", "GET", "/trades/1");
    assert_eq!(trades_sub, Endpoint::DataGeneral);
}

#[test]
fn localhost_uses_path_prefix() {
    let (api, endpoint) = detect_endpoint("http://localhost:8080/clob/markets", "GET");
    assert_eq!(api, ApiType::Clob);
    assert_eq!(endpoint, Endpoint::ClobGeneral);
    let (api, _) = detect_endpoint("http://localhost:8080/gamma/anything", "GET");
    assert_eq!(api, ApiType::Gamma);
    let (api, _) = detect_endpoint("http://localhost:8080/bridge/deposit", "POST");
    assert_eq!(api, ApiType::Bridge);
}

#[test]
fn bridge_host_is_bridge_general() {
    let (api, endpoint) = detect_endpoint("https://bridge.polymarket.com/deposit", "POST");
    assert_eq!(api, ApiType::Bridge);
    assert_eq!(endpoint, Endpoint::BridgeGeneral);
}

#[test]
fn host_match_is_exact() {
    let (api, _) = detect_endpoint("https://evil-clob.polymarket.com/book", "GET");
    assert_eq!(api, ApiType::Unknown);
    let (api, _) = detect_endpoint("https://clob.polymarket.com.evil.example/book", "GET");
    assert_eq!(api, ApiType::Unknown);
    let (api, _) = detect_endpoint("https://gamma-api.polymarket.com.evil.example/events", "GET");
    assert_eq!(api, ApiType::Unknown);
}

#[test]
fn local_host_must_be_exactly_localhost() {
    let (api, _) = detect_endpoint("http://localhost/clob/book", "GET");
    assert_eq!(api, ApiType::Clob);
    let (api, _) = detect_endpoint("http://mylocalhost/clob/book", "GET");
    assert_eq!(api, ApiType::Unknown);
    let (api, _) = detect_endpoint("http://localhost.example.com/clob/book", "GET");
    assert_eq!(api, ApiType::Unknown);
}

#[test]
fn unknown_host_is_unknown() {
    let (api, endpoint) = detect_endpoint("https://example.com/book", "GET");
    assert_eq!(api, ApiType::Unknown);
    assert_eq!(endpoint, Endpoint::Unknown);
}

#[test]
fn unparseable_url_is_unknown() {
    let (api, endpoint) = detect_endpoint("not a url at all", "GET");
    assert_eq!(api, ApiType::Unknown);
    assert_eq!(endpoint, Endpoint::Unknown);
}
