use exc::make::MakeTickersOptions;
use exc::request::{
    assemble_signed, EarnActiveOrders, EarnOffers, EarnPurchase, EarnRedeem, Get, HistoryCandles,
    HttpRequest, Instruments, InvestmentData, Order, PrivateGet, PrivatePost, SignedHeaders,
};

fn instruments_query() -> Instruments {
    Instruments { inst_type: "SPOT".to_string(), uly: None, inst_id: None }
}

#[test]
fn public_get_requests_route_to_their_paths() {
    let candles = Get::HistoryCandles(HistoryCandles {
        inst_id: "BTC-USDT".to_string(),
        after: None,
        before: None,
        bar: Some("1m".to_string()),
        limit: None,
    });
    assert_eq!(candles.uri(), "/api/v5/market/history-candles");

    assert_eq!(Get::Instruments(instruments_query()).uri(), "/api/v5/public/instruments");

    let offers = Get::EarnOffers(EarnOffers { product_id: None, protocol_type: None, ccy: None });
    assert_eq!(offers.uri(), "/api/v5/finance/staking-defi/offers");
}

#[test]
fn private_get_requests_route_to_their_paths() {
    let order = PrivateGet::Order(Order {
        inst_id: "BTC-USDT".to_string(),
        ord_id: Some("1234".to_string()),
        cl_ord_id: None,
    });
    assert_eq!(order.uri(), "/api/v5/trade/order");

    let active = PrivateGet::EarnActiveOrders(EarnActiveOrders {
        product_id: None,
        protocol_type: Some("staking".to_string()),
        ccy: None,
        state: None,
    });
    assert_eq!(active.uri(), "/api/v5/finance/staking-defi/orders-active");
}

#[test]
fn private_post_requests_route_to_their_paths() {
    let purchase = PrivatePost::EarnPurchase(EarnPurchase {
        product_id: "1426".to_string(),
        invest_data: vec![InvestmentData { ccy: "BTC".to_string(), amt: "0.5".to_string() }],
        term: None,
        tag: None,
    });
    assert_eq!(purchase.uri(), "/api/v5/finance/staking-defi/purchase");

    let redeem = PrivatePost::EarnRedeem(EarnRedeem {
        ord_id: "9876".to_string(),
        protocol_type: "defi".to_string(),
    });
    assert_eq!(redeem.uri(), "/api/v5/finance/staking-defi/redeem");
}

#[test]
fn request_kinds_wrap_into_the_http_request_union() {
    let req = HttpRequest::Get(Get::Instruments(instruments_query()));
    match req {
        HttpRequest::Get(get) => assert_eq!(get.uri(), "/api/v5/public/instruments"),
        _ => panic!("expected a public get"),
    }
}

#[test]
fn make_tickers_options_default_exists() {
    let MakeTickersOptions {} = MakeTickersOptions::default();
}

#[test]
fn private_requests_name_their_methods() {
    let order = PrivateGet::Order(Order {
        inst_id: "BTC-USDT".to_string(),
        ord_id: None,
        cl_ord_id: None,
    });
    assert_eq!(order.method(), "GET");

    let redeem = PrivatePost::EarnRedeem(EarnRedeem {
        ord_id: "9876".to_string(),
        protocol_type: "defi".to_string(),
    });
    assert_eq!(redeem.method(), "POST");
}

#[test]
fn signed_assembly_places_url_and_credential_headers() {
    let sign = SignedHeaders {
        api_key: "key".to_string(),
        signature: "sig".to_string(),
        timestamp: "2020-01-01T00:00:00.000Z".to_string(),
        passphrase: "phrase".to_string(),
    };
    let (url, headers) =
        assemble_signed("https://www.okx.com", "/api/v5/trade/order", "instId=BTC-USDT", &sign);
    assert_eq!(url, "https://www.okx.com/api/v5/trade/order?instId=BTC-USDT");

    let expected = [
        ("OK-ACCESS-KEY", "key"),
        ("OK-ACCESS-SIGN", "sig"),
        ("OK-ACCESS-TIMESTAMP", "2020-01-01T00:00:00.000Z"),
        ("OK-ACCESS-PASSPHRASE", "phrase"),
    ];
    assert_eq!(headers.len(), expected.len());
    for ((name, value), (want_name, want_value)) in headers.iter().zip(expected) {
        assert_eq!(name, want_name);
        assert_eq!(value, want_value);
    }
}
