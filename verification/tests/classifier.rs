use exc::error::ExchangeError;
use exc::response::{classify_reply, Data, ErrorMessage, RestError, RestResponse};

fn expect_rate_limited(r: Result<serde_json::Value, RestError>, want: &str) {
    match r {
        Err(RestError::Exchange(ExchangeError::RateLimited(m))) => assert_eq!(m, want),
        _ => panic!("expected a rate-limited error"),
    }
}

#[test]
fn too_many_requests_wins_over_malformed_body() {
    let r = classify_reply(429, &b"{not json at all"[..]);
    expect_rate_limited(r, "too many requests");
}

#[test]
fn too_many_requests_wins_over_decodable_body() {
    let r = classify_reply(429, &b"{\"msg\":\"fine body\"}"[..]);
    expect_rate_limited(r, "too many requests");
}

#[test]
fn teapot_status_is_also_rate_limited() {
    let r = classify_reply(418, &b""[..]);
    expect_rate_limited(r, "I'm a teapot");
}

#[test]
fn unavailable_with_unparseable_body_degrades_to_generic_message() {
    let r = classify_reply(503, &b"\xff\xfe not json"[..]);
    match r {
        Err(RestError::Exchange(ExchangeError::Unavailable(m))) => {
            assert!(m.starts_with("failed to read msg: "));
        },
        _ => panic!("expected an unavailable error, not a decode error"),
    }
}

#[test]
fn unavailable_with_readable_body_carries_its_text() {
    let r = classify_reply(503, &b"\"maintenance window\""[..]);
    match r {
        Err(RestError::Exchange(ExchangeError::Unavailable(m))) => {
            assert_eq!(m, "\"maintenance window\"");
        },
        _ => panic!("expected an unavailable error"),
    }
}

#[test]
fn normal_status_decodes_generic_json() {
    let r = classify_reply(200, &b"{\"listenKey\":\"abc\"}"[..]);
    let v = r.expect("a decodable body must decode");
    assert_eq!(v["listenKey"], serde_json::Value::String("abc".to_string()));
}

#[test]
fn normal_status_with_bad_body_is_a_decode_error() {
    let r = classify_reply(200, &b"oops"[..]);
    assert!(matches!(r, Err(RestError::Json(_))));
}

#[test]
fn typed_decode_completes_or_fails_typed() {
    let v: serde_json::Value = serde_json::from_str("5").unwrap();
    let ok = RestResponse::<i64>::from_decoded(serde_json::from_value::<i64>(v));
    assert_eq!(ok.ok().map(RestResponse::into_inner), Some(5));

    let v: serde_json::Value = serde_json::from_str("\"five\"").unwrap();
    let bad = RestResponse::<i64>::from_decoded(serde_json::from_value::<i64>(v));
    assert!(matches!(bad, Err(RestError::Json(_))));
}

#[test]
fn unknown_payload_converts_to_generic_value() {
    let v: serde_json::Value = serde_json::from_str("{\"a\":1}").unwrap();
    let resp = RestResponse::from_decoded(Ok(Data::Unknown(v.clone()))).unwrap();
    let out: serde_json::Value = resp.into_response().unwrap();
    assert_eq!(out, v);
}

#[test]
fn typed_payload_does_not_convert_to_generic_value() {
    let data = Data::Error(ErrorMessage { code: -1003, msg: "rejected".to_string() });
    let resp = RestResponse::from_decoded(Ok(data)).unwrap();
    let out: Result<serde_json::Value, RestError> = resp.into_response();
    match out {
        Err(RestError::UnexpectedResponseType(m)) => {
            assert_eq!(m, "unexpected response type: error message")
        },
        _ => panic!("expected an unexpected-response-type error"),
    }
}

#[test]
fn rest_errors_fold_into_the_taxonomy() {
    let e = RestError::Exchange(ExchangeError::RateLimited("slow down".to_string()));
    match e.into_exchange() {
        ExchangeError::RateLimited(m) => assert_eq!(m, "slow down"),
        _ => panic!("classified errors pass through unchanged"),
    }

    let e = RestError::UnexpectedResponseType("wrong shape".to_string());
    match e.into_exchange() {
        ExchangeError::UnexpectedResponseType(m) => assert_eq!(m, "wrong shape"),
        _ => panic!("shape errors keep their kind"),
    }

    let bad = serde_json::from_str::<serde_json::Value>("nope").unwrap_err();
    match RestError::Json(bad).into_exchange() {
        ExchangeError::Other(m) => assert!(m.starts_with("failed to decode response: ")),
        _ => panic!("decode errors become the catch-all kind"),
    }
}
