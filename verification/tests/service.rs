use exc::cache::InstrumentCache;
use exc::error::ExchangeError;
use exc::instrument::Instrument;
use exc::market::{
    Kind, MarketLayer, MarketPoll, PollResult, Request, Response, TaskStatus, WatchEvent, Worker,
};
use exc::transport::SendOutcome;

fn inst(symbol: &str, active: bool) -> Instrument {
    Instrument {
        symbol: symbol.to_string(),
        price_precision: 2,
        size_precision: 6,
        min_size: 10,
        active,
    }
}

fn expect_worker_dead(poll: MarketPoll) {
    match poll {
        MarketPoll::Failed(e) => assert_eq!(e.reason(), "market worker dead"),
        _ => panic!("expected the worker-dead failure"),
    }
}

#[test]
fn bootstrap_then_incremental_update_is_visible() {
    let mut worker = Worker::new();
    assert_eq!(worker.segment(), "SPOT");

    let mut cache = InstrumentCache::new();
    let snapshot = vec![inst("BTC-USDT", true), inst("ETH-USDT", true)];
    assert!(matches!(
        worker.poll_init(&mut cache, Some(Ok(snapshot))),
        PollResult::Ready(Ok(()))
    ));

    let got = cache.get("BTC-USDT").expect("bootstrapped instrument");
    assert!(got.active);
    assert_eq!(got.min_size, 10);

    let done = worker.watch_step(&mut cache, WatchEvent::Update(inst("BTC-USDT", false)));
    assert!(done.is_none());

    assert!(!cache.get("BTC-USDT").unwrap().active);
    let eth = cache.get("ETH-USDT").unwrap();
    assert!(eth.active);
    assert_eq!(eth.min_size, 10);
}

#[test]
fn bootstrap_waits_until_the_fetch_resolves() {
    let mut worker = Worker::new();
    let mut cache = InstrumentCache::new();
    assert!(matches!(worker.poll_init(&mut cache, None), PollResult::Pending));
    assert!(matches!(
        worker.poll_init(&mut cache, Some(Ok(vec![]))),
        PollResult::Ready(Ok(()))
    ));
    assert!(matches!(worker.poll_init(&mut cache, None), PollResult::Ready(Ok(()))));
}

#[test]
fn bootstrap_failure_is_fatal_and_propagated() {
    let mut worker = Worker::new();
    let mut cache = InstrumentCache::new();
    let fetch = Some(Err(ExchangeError::Unavailable("exchange down".to_string())));
    match worker.poll_init(&mut cache, fetch) {
        PollResult::Ready(Err(ExchangeError::Unavailable(m))) => assert_eq!(m, "exchange down"),
        _ => panic!("a failed fetch fails the worker with its own error"),
    }
}

#[test]
fn clean_stream_end_drives_the_service_into_terminal_failure() {
    let layer = MarketLayer::default();
    assert_eq!(layer.buffer_bound(), 1024);
    let mut market = layer.layer();
    let mut cache = InstrumentCache::new();

    // The first probe spawns the worker and reports ready.
    let mut worker = match market.poll_ready(TaskStatus::Alive) {
        MarketPoll::Spawn(worker) => worker,
        _ => panic!("the first probe hands out the worker to spawn"),
    };

    assert!(matches!(
        worker.poll_init(&mut cache, Some(Ok(vec![inst("BTC-USDT", true)]))),
        PollResult::Ready(Ok(()))
    ));
    assert!(matches!(market.poll_ready(TaskStatus::Alive), MarketPoll::Ready));

    // The watch stream ends cleanly: the worker task ends Ok.
    let done = worker.watch_step(&mut cache, WatchEvent::Closed);
    assert!(matches!(done, Some(Ok(()))));

    // Next probe: Running -> Closing, awaiting the task's final result.
    assert!(matches!(market.poll_ready(TaskStatus::FinishedPending), MarketPoll::Pending));

    // Next probe: the result arrives; Closing -> Failed even though it is Ok.
    expect_worker_dead(market.poll_ready(TaskStatus::FinishedDone(Ok(()))));

    // Third probe: terminal, same error kind, forever.
    expect_worker_dead(market.poll_ready(TaskStatus::Alive));
    expect_worker_dead(market.poll_ready(TaskStatus::FinishedDone(Ok(()))));

    // The probe-then-call path fails the same way...
    let req = Request::get_instrument("BTC-USDT".to_string());
    match market.send(&cache, &req, TaskStatus::Alive) {
        PollResult::Ready(Err(e)) => assert_eq!(e.reason(), "market worker dead"),
        _ => panic!("a dead service fails every exchange"),
    }

    // ...while the direct cache lookup still serves the stale snapshot.
    match market.call(&cache, &req) {
        Ok(Response::Instrument(Some(got))) => assert!(got.active),
        _ => panic!("direct cache lookups are served regardless of state"),
    }
}

#[test]
fn worker_error_reaches_the_probe_that_observes_it() {
    let mut market = MarketLayer::default().layer();
    assert!(matches!(market.poll_ready(TaskStatus::Alive), MarketPoll::Spawn(_)));

    let failure = TaskStatus::FinishedDone(Err(ExchangeError::Transport("socket gone".to_string())));
    match market.poll_ready(failure) {
        MarketPoll::Failed(ExchangeError::Transport(m)) => assert_eq!(m, "socket gone"),
        _ => panic!("the worker's own error is propagated once"),
    }
    // After that, the uniform worker-dead error.
    expect_worker_dead(market.poll_ready(TaskStatus::Alive));
}

#[test]
fn requests_name_their_kind() {
    let req = Request::get_instrument("ETH-USDT".to_string());
    let Kind::GetInstrument(g) = req.kind();
    assert_eq!(g.symbol, "ETH-USDT");
}

#[test]
fn facade_routes_requests_through_its_bounded_queue() {
    let layer = MarketLayer::with_bound(2);
    assert_eq!(layer.buffer_bound(), 2);
    let mut market = layer.layer();
    let mut cache = InstrumentCache::new();

    let mut worker = match market.poll_ready(TaskStatus::Alive) {
        MarketPoll::Spawn(worker) => worker,
        _ => panic!("the first probe hands out the worker to spawn"),
    };
    assert!(matches!(
        worker.poll_init(&mut cache, Some(Ok(vec![inst("BTC-USDT", true)]))),
        PollResult::Ready(Ok(()))
    ));

    let r1 = Request::get_instrument("BTC-USDT".to_string());
    let r2 = Request::get_instrument("ETH-USDT".to_string());
    let r3 = Request::get_instrument("SOL-USDT".to_string());
    assert!(matches!(market.offer(r1), SendOutcome::Enqueued(0)));
    assert!(matches!(market.offer(r2), SendOutcome::Enqueued(1)));
    // The queue is at the layer's bound: the third offer must wait.
    assert!(matches!(market.offer(r3), SendOutcome::MustWait(_)));

    let (ticket, resp) = market.process_next(&cache).expect("oldest request served first");
    assert_eq!(ticket, 0);
    match resp {
        Ok(Response::Instrument(Some(got))) => assert_eq!(got.symbol, "BTC-USDT"),
        _ => panic!("the bootstrapped instrument is served"),
    }

    let (ticket, resp) = market.process_next(&cache).expect("second request served next");
    assert_eq!(ticket, 1);
    assert!(matches!(resp, Ok(Response::Instrument(None))));

    assert!(market.process_next(&cache).is_none());
}

#[test]
fn dead_facade_fails_queued_requests_with_the_transport_kind() {
    let mut market = MarketLayer::with_bound(4).layer();
    let cache = InstrumentCache::new();
    assert!(matches!(market.poll_ready(TaskStatus::Alive), MarketPoll::Spawn(_)));

    assert!(matches!(
        market.offer(Request::get_instrument("BTC-USDT".to_string())),
        SendOutcome::Enqueued(0)
    ));
    assert!(matches!(
        market.offer(Request::get_instrument("ETH-USDT".to_string())),
        SendOutcome::Enqueued(1)
    ));

    let failed = market.fail_pending();
    let tickets: Vec<u64> = failed.iter().map(|(t, _)| *t).collect();
    assert_eq!(tickets, vec![0, 1]);
    for (_, err) in &failed {
        assert!(matches!(err, ExchangeError::Transport(_)));
    }

    // Afterwards the queue rejects every offer...
    assert!(matches!(
        market.offer(Request::get_instrument("SOL-USDT".to_string())),
        SendOutcome::Dead(_, _)
    ));
    // ...and the probe-then-call exchange fails with the transport kind.
    let req = Request::get_instrument("BTC-USDT".to_string());
    match market.send(&cache, &req, TaskStatus::Alive) {
        PollResult::Ready(Err(ExchangeError::Transport(m))) => assert_eq!(m, "connection terminated"),
        _ => panic!("a dead queue fails the exchange with the transport kind"),
    }
}
