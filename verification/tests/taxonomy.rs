use exc::error::ExchangeError;

#[test]
fn every_kind_carries_its_reason() {
    let cases = vec![
        (ExchangeError::RateLimited("too fast".to_string()), "too fast"),
        (ExchangeError::Unavailable("down".to_string()), "down"),
        (ExchangeError::KeyError("bad key".to_string()), "bad key"),
        (ExchangeError::UnexpectedResponseType("wrong shape".to_string()), "wrong shape"),
        (ExchangeError::Transport("socket gone".to_string()), "socket gone"),
        (ExchangeError::Other("misc".to_string()), "misc"),
    ];
    for (err, want) in &cases {
        assert_eq!(err.reason(), *want);
    }
}
