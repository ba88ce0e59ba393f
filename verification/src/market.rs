//! The market service: a supervised background worker that keeps the
//! instrument cache fresh, and the state machine that owns it.
//!
//! The worker lives a strictly two-phase life: one bulk bootstrap fetch,
//! then an indefinite incremental watch. The service state machine spawns
//! the worker, reports readiness while the worker runs, and converts a
//! finished worker — success or failure — into a permanent, detectable
//! service failure rather than silent staleness. The asynchronous plumbing
//! (task spawning, joining, the update stream) lives with the embedding
//! runtime, which reports what it observed through [`TaskStatus`] and
//! [`WatchEvent`]; every decision taken on those observations is made and
//! verified here.

use vstd::prelude::*;

use crate::cache::{applied, InstrumentCache};
use crate::error::ExchangeError;
use crate::instrument::Instrument;
use crate::transport::{admits, doomed_tickets, send_model, Buffer, BufferModel, OkxError,
    SendOutcome};

verus! {

/// Default capacity of the request buffer in front of the market service.
pub const DEFAULT_MARKET_BUFFER: usize = 1024;

/// A request to the market service.
pub struct Request {
    /// What the request asks for.
    pub kind: Kind,
}

/// The closed set of request kinds the market service answers.
pub enum Kind {
    /// Look up one instrument by symbol.
    GetInstrument(GetInstrument),
}

/// A lookup of one instrument's metadata.
pub struct GetInstrument {
    /// Symbol of the instrument asked for.
    pub symbol: String,
}

impl Request {
    /// A request for one instrument's metadata.
    pub fn get_instrument(symbol: String) -> (r: Request)
        ensures
            r.kind matches Kind::GetInstrument(g) && g.symbol == symbol,
    {
        Request { kind: Kind::GetInstrument(GetInstrument { symbol }) }
    }

    /// The kind of this request.
    pub fn kind(&self) -> (r: &Kind)
        ensures
            r == &self.kind,
    {
        &self.kind
    }
}

impl Clone for GetInstrument {
    /// A clone asks for the same symbol.
    fn clone(&self) -> (r: Self)
        ensures
            r == *self,
    {
        GetInstrument { symbol: self.symbol.clone() }
    }
}

impl Clone for Kind {
    /// A clone carries the same request kind.
    fn clone(&self) -> (r: Self)
        ensures
            r == *self,
    {
        match self {
            Kind::GetInstrument(g) => Kind::GetInstrument(g.clone()),
        }
    }
}

impl Clone for Request {
    /// A clone is the same request.
    fn clone(&self) -> (r: Self)
        ensures
            r == *self,
    {
        Request { kind: self.kind.clone() }
    }
}

/// A reply of the market service.
pub enum Response {
    /// The instrument found under the requested symbol, if any.
    Instrument(Option<Instrument>),
}

/// The outcome of polling a suspension point.
pub enum PollResult<T> {
    /// Not done yet; poll again once the awaited work made progress.
    Pending,
    /// Done, with this value.
    Ready(T),
}

/// Where the worker stands in its two-phase life.
pub enum WorkerPhase {
    /// Waiting for the one-time bulk fetch of instruments.
    Bootstrapping,
    /// Bootstrap done; applying incremental updates until the stream ends.
    Watching,
}

/// One observation from the incremental update stream.
pub enum WatchEvent {
    /// The stream delivered one instrument update.
    Update(Instrument),
    /// The stream ended cleanly.
    Closed,
    /// The stream ended with an error.
    Failed(ExchangeError),
}

/// The background worker: bulk-fetch instruments once, then watch
/// incremental updates forever.
///
/// The worker is the cache's only writer. It never retries on its own:
/// a failed bootstrap or a terminated stream ends its life, and recovery
/// belongs to whoever owns the service.
pub struct Worker {
    segment: String,
    phase: WorkerPhase,
}

impl Worker {
    /// The worker's current phase.
    pub closed spec fn phase(&self) -> WorkerPhase {
        self.phase
    }

    /// The market segment whose instruments this worker maintains.
    pub closed spec fn segment_name(&self) -> Seq<char> {
        self.segment@
    }

    /// A fresh worker for the spot market segment, waiting to bootstrap.
    pub fn new() -> (r: Worker)
        ensures
            r.phase() is Bootstrapping,
            r.segment_name() == "SPOT"@,
    {
        Worker { segment: "SPOT".to_owned(), phase: WorkerPhase::Bootstrapping }
    }

    /// The market segment, for the embedding runtime to hand to the fetch
    /// and subscription collaborators.
    pub fn segment(&self) -> (r: &str)
        ensures
            r@ == self.segment_name(),
    {
        self.segment.as_str()
    }

    /// Polls the one-time bootstrap. `fetch` is what the bulk-fetch
    /// collaborator produced so far: nothing yet, a snapshot, or an error.
    ///
    /// On a snapshot the whole cache is replaced atomically and the watch
    /// phase begins. A fetch error is fatal to the worker and is propagated,
    /// not retried. Once bootstrapped, the poll is already complete.
    pub fn poll_init(
        &mut self,
        cache: &mut InstrumentCache,
        fetch: Option<Result<Vec<Instrument>, ExchangeError>>,
    ) -> (r: PollResult<Result<(), ExchangeError>>)
        requires
            old(cache).wf(),
        ensures
            final(cache).wf(),
            final(self).segment_name() == old(self).segment_name(),
            old(self).phase() is Watching ==> (r matches PollResult::Ready(Ok(())) && *final(self) == *old(self) && *final(cache) == *old(cache)),
            old(self).phase() is Bootstrapping && fetch is None ==> (r is Pending && *final(self)
                == *old(self) && *final(cache) == *old(cache)),
            match fetch {
                Some(Ok(list)) => old(self).phase() is Bootstrapping ==> (r matches
                    PollResult::Ready(Ok(())) && final(self).phase() is Watching && final(cache)@
                    == applied(list@.map_values(|x: Instrument| x@))),
                Some(Err(e)) => old(self).phase() is Bootstrapping ==> (r matches
                    PollResult::Ready(Err(e2)) && e2 == e && *final(self) == *old(self) && *final(
                    cache) == *old(cache)),
                None => true,
            },
    {
        match self.phase {
            WorkerPhase::Watching => PollResult::Ready(Ok(())),
            WorkerPhase::Bootstrapping => match fetch {
                None => PollResult::Pending,
                Some(Ok(list)) => {
                    cache.init_from(list);
                    self.phase = WorkerPhase::Watching;
                    PollResult::Ready(Ok(()))
                },
                Some(Err(e)) => PollResult::Ready(Err(e)),
            },
        }
    }

    /// Applies one observation of the update stream. An update is upserted
    /// into the cache as a whole entry; the stream's end — clean or failed —
    /// is the worker's own result, and ends its life.
    pub fn watch_step(&self, cache: &mut InstrumentCache, event: WatchEvent) -> (r: Option<
        Result<(), ExchangeError>,
    >)
        requires
            old(cache).wf(),
            self.phase() is Watching,
        ensures
            final(cache).wf(),
            event matches WatchEvent::Update(inst) ==> (r is None && final(cache)@ == old(cache)@.insert(inst@.symbol, inst@)),
            event is Closed ==> (r matches Some(Ok(())) && *final(cache) == *old(cache)),
            event matches WatchEvent::Failed(e) ==> (r matches Some(Err(e2)) && e2 == e && *final(cache) == *old(cache)),
    {
        match event {
            WatchEvent::Update(inst) => {
                cache.upsert(inst);
                None
            },
            WatchEvent::Closed => Some(Ok(())),
            WatchEvent::Failed(e) => Some(Err(e)),
        }
    }
}

/// What the embedding runtime observed of the spawned worker task since the
/// last readiness probe. A panicked or aborted task is reported as
/// `FinishedDone(Err(_))`, folded into the catch-all error kind.
pub enum TaskStatus {
    /// The task is still running.
    Alive,
    /// The task has finished, but its final result was not yet delivered.
    FinishedPending,
    /// The task has finished with this result.
    FinishedDone(Result<(), ExchangeError>),
}

/// The lifecycle state of the market service.
pub enum ServiceState {
    /// Constructed; the worker has not been spawned yet.
    Init(Worker),
    /// The worker runs as a background task.
    Running,
    /// The worker task finished; awaiting its final result.
    Closing,
    /// Terminal: the worker is gone and the service can no longer serve
    /// fresh data. There is no transition out.
    Failed,
}

/// Whether `e` is the error every probe and call of a dead market service
/// fails with.
pub open spec fn is_worker_dead_error(e: ExchangeError) -> bool {
    e matches ExchangeError::Other(m) && m@ == "market worker dead"@
}

/// The service state after one readiness probe that observed `obs`.
pub open spec fn next_state(s: ServiceState, obs: TaskStatus) -> ServiceState {
    match s {
        ServiceState::Init(_) => ServiceState::Running,
        ServiceState::Running => match obs {
            TaskStatus::Alive => ServiceState::Running,
            TaskStatus::FinishedPending => ServiceState::Closing,
            TaskStatus::FinishedDone(_) => ServiceState::Failed,
        },
        ServiceState::Closing => match obs {
            TaskStatus::FinishedDone(_) => ServiceState::Failed,
            _ => ServiceState::Closing,
        },
        ServiceState::Failed => ServiceState::Failed,
    }
}

/// The service state after a whole sequence of readiness probes.
pub open spec fn state_after(s: ServiceState, obss: Seq<TaskStatus>) -> ServiceState
    decreases obss.len(),
{
    if obss.len() == 0 {
        s
    } else {
        next_state(state_after(s, obss.drop_last()), obss.last())
    }
}

/// Failed is terminal: however many readiness probes follow and whatever
/// they observe, a service that entered Failed stays in Failed — and so, by
/// the probe contract, every one of those probes fails with the
/// worker-dead error kind. There is no resurrection.
pub proof fn lemma_failed_is_terminal(obss: Seq<TaskStatus>)
    ensures
        forall|k: int|
            0 <= k <= obss.len() ==> state_after(ServiceState::Failed, #[trigger] obss.take(k))
                is Failed,
    decreases obss.len(),
{
    if obss.len() > 0 {
        lemma_failed_is_terminal(obss.drop_last());
        assert forall|k: int|
            0 <= k <= obss.len() implies state_after(
            ServiceState::Failed,
            #[trigger] obss.take(k),
        ) is Failed by {
            if k < obss.len() {
                assert(obss.take(k) =~= obss.drop_last().take(k));
                assert(state_after(ServiceState::Failed, obss.drop_last().take(k)) is Failed);
            } else {
                assert(obss.drop_last().take(obss.len() - 1) =~= obss.drop_last());
                assert(state_after(ServiceState::Failed, obss.drop_last()) is Failed);
                assert(obss.take(k) =~= obss);
                assert(state_after(ServiceState::Failed, obss) == next_state(
                    state_after(ServiceState::Failed, obss.drop_last()),
                    obss.last(),
                ));
            }
        }
    } else {
        assert forall|k: int|
            0 <= k <= obss.len() implies state_after(
            ServiceState::Failed,
            #[trigger] obss.take(k),
        ) is Failed by {
            assert(obss.take(k) =~= obss);
        }
    }
}

/// The probe result of the market service.
pub enum MarketPoll {
    /// The service was freshly constructed: the caller must spawn this
    /// worker as a background task. The service is ready.
    Spawn(Worker),
    /// The worker runs; the service is ready.
    Ready,
    /// The worker's final result is still being awaited.
    Pending,
    /// The service is dead: the given error, now and forever.
    Failed(ExchangeError),
}

/// The market service: owns the worker's lifecycle and supervises it.
///
/// Exactly one instance owns this state; callers reach it through the
/// cloneable, buffered [`Market`] facade. If the owning handle is dropped
/// while the worker task still runs, the embedding runtime must abort that
/// task: the worker holds transport resources that must not outlive their
/// owner.
pub struct MarketService {
    svc_state: ServiceState,
}

impl MarketService {
    /// The service's lifecycle state.
    pub closed spec fn state(&self) -> ServiceState {
        self.svc_state
    }

    /// A fresh service holding an unspawned worker.
    pub fn new() -> (r: MarketService)
        ensures
            r.state() matches ServiceState::Init(w) && w.phase() is Bootstrapping
                && w.segment_name() == "SPOT"@,
    {
        MarketService { svc_state: ServiceState::Init(Worker::new()) }
    }

    /// One readiness probe, deciding on what the runtime observed of the
    /// worker task.
    ///
    /// Init spawns the worker and reports ready; Running stays ready while
    /// the task lives and starts closing when it finished; Closing awaits
    /// the task's final result and then fails the service for good — a
    /// finished worker, success or failure, means the service can no longer
    /// serve fresh data; Failed rejects every probe with the worker-dead
    /// error.
    pub fn poll_ready(&mut self, obs: TaskStatus) -> (r: MarketPoll)
        ensures
            final(self).state() == next_state(old(self).state(), obs),
            old(self).state() matches ServiceState::Init(w) ==> r == MarketPoll::Spawn(w),
            old(self).state() is Running && obs is Alive ==> r is Ready,
            old(self).state() is Running && obs is FinishedPending ==> r is Pending,
            old(self).state() is Closing && !(obs is FinishedDone) ==> r is Pending,
            match obs {
                TaskStatus::FinishedDone(res) => (old(self).state() is Running || old(
                    self,
                ).state() is Closing) ==> (r matches MarketPoll::Failed(e) && (match res {
                    Ok(()) => is_worker_dead_error(e),
                    Err(e0) => e == e0,
                })),
                _ => true,
            },
            old(self).state() is Failed ==> (r matches MarketPoll::Failed(e)
                && is_worker_dead_error(e)),
    {
        let mut taken = ServiceState::Failed;
        core::mem::swap(&mut taken, &mut self.svc_state);
        match taken {
            ServiceState::Init(worker) => {
                self.svc_state = ServiceState::Running;
                MarketPoll::Spawn(worker)
            },
            ServiceState::Running => match obs {
                TaskStatus::Alive => {
                    self.svc_state = ServiceState::Running;
                    MarketPoll::Ready
                },
                TaskStatus::FinishedPending => {
                    self.svc_state = ServiceState::Closing;
                    MarketPoll::Pending
                },
                TaskStatus::FinishedDone(res) => {
                    self.svc_state = ServiceState::Failed;
                    MarketPoll::Failed(Self::fold_result(res))
                },
            },
            ServiceState::Closing => match obs {
                TaskStatus::FinishedDone(res) => {
                    self.svc_state = ServiceState::Failed;
                    MarketPoll::Failed(Self::fold_result(res))
                },
                _ => {
                    self.svc_state = ServiceState::Closing;
                    MarketPoll::Pending
                },
            },
            ServiceState::Failed => {
                self.svc_state = ServiceState::Failed;
                MarketPoll::Failed(worker_dead_error())
            },
        }
    }

    /// The error a finished worker leaves the service with: its own error
    /// if it failed, the worker-dead error if it ended cleanly — either
    /// way the service is done.
    fn fold_result(res: Result<(), ExchangeError>) -> (r: ExchangeError)
        ensures
            match res {
                Ok(()) => is_worker_dead_error(r),
                Err(e0) => r == e0,
            },
    {
        match res {
            Ok(()) => worker_dead_error(),
            Err(e) => e,
        }
    }

    /// Serves one request. The only kind is a synchronous cache lookup,
    /// answered straight from the shared instrument cache regardless of
    /// service state: a stale cache is still returned rather than blocking
    /// or erroring.
    pub fn call(&self, cache: &InstrumentCache, req: &Request) -> (r: Result<
        Response,
        ExchangeError,
    >)
        requires
            cache.wf(),
        ensures
            req.kind matches Kind::GetInstrument(g) ==> (r matches Ok(Response::Instrument(o))
                && (match o {
                Some(inst) => cache@.contains_key(g.symbol@) && inst@ == cache@[g.symbol@],
                None => !cache@.contains_key(g.symbol@),
            })),
    {
        match &req.kind {
            Kind::GetInstrument(g) => {
                let meta = match cache.get(g.symbol.as_str()) {
                    Some(inst) => Some(inst.clone()),
                    None => None,
                };
                Ok(Response::Instrument(meta))
            },
        }
    }
}

/// The worker-dead error: what every probe and call of a failed market
/// service reports.
pub fn worker_dead_error() -> (e: ExchangeError)
    ensures
        is_worker_dead_error(e),
{
    ExchangeError::Other("market worker dead".to_owned())
}

/// Folds a dispatch-queue failure into the exchange taxonomy, so that no
/// raw buffer error reaches a caller of the market service.
pub fn flatten_transport(e: &OkxError) -> (r: ExchangeError)
    ensures
        e matches OkxError::Buffer(m) ==> (r matches ExchangeError::Transport(m2) && m2 == m),
{
    match e {
        OkxError::Buffer(m) => ExchangeError::Transport(m.clone()),
    }
}

/// The cloneable facade over one market service.
///
/// The facade fronts the single service instance through a bounded request
/// queue of the layer's configured capacity: callers offer requests to the
/// queue (waiting when it is full), and one consumer step at a time routes
/// the oldest request to the service. Queue failures reach callers only as
/// the taxonomy's transport kind.
pub struct Market {
    inner: MarketService,
    buffer: Buffer<Request>,
}

impl Market {
    /// The wrapped service's lifecycle state.
    pub closed spec fn state(&self) -> ServiceState {
        self.inner.state()
    }

    /// The mathematical state of the bounded request queue the facade
    /// fronts the service with.
    pub closed spec fn queue(&self) -> BufferModel<Request> {
        self.buffer.model()
    }

    /// The facade's internal invariant.
    pub closed spec fn wf(&self) -> bool {
        self.buffer.wf()
    }

    /// Wraps a service in a facade behind a fresh request queue of the
    /// given capacity.
    pub fn new(inner: MarketService, bound: usize) -> (r: Market)
        requires
            bound >= 1,
        ensures
            r.wf(),
            r.state() == inner.state(),
            r.queue().bound == bound as nat,
            r.queue().next_ticket == 0,
            r.queue().pending.len() == 0,
            r.queue().in_flight is None,
            !r.queue().closed,
    {
        Market { inner, buffer: Buffer::new(bound) }
    }

    /// Offers one request to the facade's queue: admitted at once when
    /// there is room, handed back to wait when the queue is full — this is
    /// where a caller observes backpressure — and rejected with a transport
    /// error when the queue is closed.
    pub fn offer(&mut self, req: Request) -> (r: SendOutcome<Request>)
        requires
            old(self).wf(),
        ensures
            final(self).wf(),
            final(self).state() == old(self).state(),
            final(self).queue() == send_model(old(self).queue(), req),
            admits(old(self).queue()) <==> (r matches SendOutcome::Enqueued(t) && t == old(
                self,
            ).queue().next_ticket),
            !old(self).queue().closed && !admits(old(self).queue()) ==> (r matches SendOutcome::MustWait(
                q,
            ) && q == req),
            old(self).queue().closed ==> (r matches SendOutcome::Dead(q, e) && q == req
                && e is Buffer),
    {
        self.buffer.send(req)
    }

    /// One consumer step: takes the oldest queued request, serves it from
    /// the single service instance, and completes its ticket. Dispatch
    /// order is submission order.
    pub fn process_next(&mut self, cache: &InstrumentCache) -> (r: Option<
        (u64, Result<Response, ExchangeError>),
    >)
        requires
            old(self).wf(),
            cache.wf(),
            old(self).queue().in_flight is None,
        ensures
            final(self).wf(),
            final(self).state() == old(self).state(),
            final(self).queue().bound == old(self).queue().bound,
            final(self).queue().next_ticket == old(self).queue().next_ticket,
            final(self).queue().closed == old(self).queue().closed,
            final(self).queue().in_flight is None,
            old(self).queue().pending.len() == 0 ==> r is None && *final(self) == *old(self),
            old(self).queue().pending.len() > 0 ==> (r matches Some(out) && out.0 == old(
                self,
            ).queue().pending[0].0 && final(self).queue().pending == old(
                self,
            ).queue().pending.drop_first() && (match old(self).queue().pending[0].1.kind {
                Kind::GetInstrument(g) => out.1 matches Ok(Response::Instrument(o)) && (match o {
                    Some(inst) => cache@.contains_key(g.symbol@) && inst@ == cache@[g.symbol@],
                    None => !cache@.contains_key(g.symbol@),
                }),
            })),
    {
        match self.buffer.take_next() {
            None => None,
            Some((ticket, req)) => {
                let resp = self.inner.call(cache, &req);
                self.buffer.complete();
                Some((ticket, resp))
            },
        }
    }

    /// The service can no longer serve: the queue closes for good and every
    /// request still queued or in flight resolves, in order, with the
    /// taxonomy's transport kind — the raw buffer error never reaches a
    /// caller.
    pub fn fail_pending(&mut self) -> (failed: Vec<(u64, ExchangeError)>)
        requires
            old(self).wf(),
        ensures
            final(self).wf(),
            final(self).state() == old(self).state(),
            final(self).queue().closed,
            final(self).queue().pending.len() == 0,
            final(self).queue().in_flight is None,
            failed@.len() == doomed_tickets(old(self).queue()).len(),
            forall|i: int|
                0 <= i < failed@.len() ==> #[trigger] failed@[i].0 == doomed_tickets(
                    old(self).queue(),
                )[i] && failed@[i].1 is Transport,
    {
        let ghost doomed = doomed_tickets(old(self).queue());
        let raw = self.buffer.close();
        let mut failed: Vec<(u64, ExchangeError)> = Vec::new();
        let mut i: usize = 0;
        while i < raw.len()
            invariant
                raw@.len() == doomed.len(),
                forall|j: int|
                    0 <= j < raw@.len() ==> #[trigger] raw@[j].0 == doomed[j] && raw@[j].1
                        is Buffer,
                i <= raw.len(),
                failed@.len() == i,
                forall|j: int|
                    0 <= j < i ==> #[trigger] failed@[j].0 == doomed[j] && failed@[j].1
                        is Transport,
            decreases raw.len() - i,
        {
            let err = flatten_transport(&raw[i].1);
            failed.push((raw[i].0, err));
            i += 1;
        }
        failed
    }

    /// Forwards a readiness probe to the wrapped service. The request
    /// queue is not touched.
    pub fn poll_ready(&mut self, obs: TaskStatus) -> (r: MarketPoll)
        ensures
            final(self).state() == next_state(old(self).state(), obs),
            final(self).queue() == old(self).queue(),
            old(self).wf() ==> final(self).wf(),
            old(self).state() matches ServiceState::Init(w) ==> r == MarketPoll::Spawn(w),
            old(self).state() is Running && obs is Alive ==> r is Ready,
            old(self).state() is Running && obs is FinishedPending ==> r is Pending,
            old(self).state() is Closing && !(obs is FinishedDone) ==> r is Pending,
            match obs {
                TaskStatus::FinishedDone(res) => (old(self).state() is Running || old(
                    self,
                ).state() is Closing) ==> (r matches MarketPoll::Failed(e) && (match res {
                    Ok(()) => is_worker_dead_error(e),
                    Err(e0) => e == e0,
                })),
                _ => true,
            },
            old(self).state() is Failed ==> (r matches MarketPoll::Failed(e)
                && is_worker_dead_error(e)),
    {
        self.inner.poll_ready(obs)
    }

    /// Forwards one request to the wrapped service.
    pub fn call(&self, cache: &InstrumentCache, req: &Request) -> (r: Result<
        Response,
        ExchangeError,
    >)
        requires
            cache.wf(),
        ensures
            req.kind matches Kind::GetInstrument(g) ==> (r matches Ok(Response::Instrument(o))
                && (match o {
                Some(inst) => cache@.contains_key(g.symbol@) && inst@ == cache@[g.symbol@],
                None => !cache@.contains_key(g.symbol@),
            })),
    {
        self.inner.call(cache, req)
    }

    /// One probe-then-call exchange, as callers following the
    /// send-after-ready discipline perform it on an otherwise idle facade:
    /// the probe first (so the owner has already spawned the worker — the
    /// service is past Init), then the request through the queue and one
    /// consumer step. A still-closing service and a full queue both report
    /// pending; a dead service fails the exchange with the worker-dead
    /// error, a dead queue with the transport kind.
    pub fn send(&mut self, cache: &InstrumentCache, req: &Request, obs: TaskStatus) -> (r:
        PollResult<Result<Response, ExchangeError>>)
        requires
            cache.wf(),
            old(self).wf(),
            !(old(self).state() is Init),
            old(self).queue().pending.len() == 0,
            old(self).queue().in_flight is None,
        ensures
            final(self).wf(),
            final(self).state() == next_state(old(self).state(), obs),
            final(self).queue().pending.len() == 0,
            final(self).queue().in_flight is None,
            final(self).queue().closed == old(self).queue().closed,
            old(self).state() is Failed ==> (r matches PollResult::Ready(Err(e))
                && is_worker_dead_error(e)),
            old(self).state() is Running && obs is FinishedPending ==> r is Pending,
            old(self).state() is Closing && !(obs is FinishedDone) ==> r is Pending,
            match obs {
                TaskStatus::FinishedDone(res) => (old(self).state() is Running || old(
                    self,
                ).state() is Closing) ==> (r matches PollResult::Ready(Err(e)) && (match res {
                    Ok(()) => is_worker_dead_error(e),
                    Err(e0) => e == e0,
                })),
                _ => true,
            },
            match req.kind {
                Kind::GetInstrument(g) => old(self).state() is Running && obs is Alive && !old(
                    self,
                ).queue().closed ==> (r matches PollResult::Ready(Ok(Response::Instrument(o)))
                    && (match o {
                    Some(inst) => cache@.contains_key(g.symbol@) && inst@ == cache@[g.symbol@],
                    None => !cache@.contains_key(g.symbol@),
                })),
            },
            old(self).state() is Running && obs is Alive && old(self).queue().closed ==> (r
                matches PollResult::Ready(Err(e)) && e is Transport),
    {
        match self.poll_ready(obs) {
            MarketPoll::Pending => PollResult::Pending,
            MarketPoll::Failed(e) => PollResult::Ready(Err(e)),
            MarketPoll::Spawn(_) => PollResult::Pending,  // unreachable: the service is past Init
            MarketPoll::Ready => match self.buffer.send(req.clone()) {
                SendOutcome::Dead(_, e) => PollResult::Ready(Err(flatten_transport(&e))),
                SendOutcome::MustWait(_) => PollResult::Pending,  // unreachable: the queue was idle
                SendOutcome::Enqueued(_) => match self.buffer.take_next() {
                    None => PollResult::Pending,  // unreachable: the request was just admitted
                    Some((_, owned)) => {
                        let resp = self.inner.call(cache, &owned);
                        self.buffer.complete();
                        PollResult::Ready(resp)
                    },
                },
            },
        }
    }
}

/// Builds market services of a fixed buffer capacity.
pub struct MarketLayer {
    bound: usize,
}

impl MarketLayer {
    /// Capacity of the request queue the facade sits behind.
    pub closed spec fn bound(&self) -> usize {
        self.bound
    }

    /// The layer's invariant: a queue must hold at least one request.
    pub open spec fn wf(&self) -> bool {
        self.bound() >= 1
    }

    /// A layer with the given queue capacity.
    pub fn with_bound(bound: usize) -> (r: MarketLayer)
        requires
            bound >= 1,
        ensures
            r.wf(),
            r.bound() == bound,
    {
        MarketLayer { bound }
    }

    /// The queue capacity.
    pub fn buffer_bound(&self) -> (r: usize)
        ensures
            r == self.bound(),
    {
        self.bound
    }

    /// Wraps a fresh market service — worker constructed, nothing spawned
    /// yet — in its cloneable facade, behind a fresh request queue of the
    /// layer's configured capacity. The per-second throttle on the
    /// instrument-subscription path is clock-driven and stays with the
    /// embedding runtime.
    pub fn layer(&self) -> (r: Market)
        requires
            self.wf(),
        ensures
            r.wf(),
            r.state() matches ServiceState::Init(w) && w.phase() is Bootstrapping
                && w.segment_name() == "SPOT"@,
            r.queue().bound == self.bound() as nat,
            r.queue().next_ticket == 0,
            r.queue().pending.len() == 0,
            r.queue().in_flight is None,
            !r.queue().closed,
    {
        Market::new(MarketService::new(), self.bound)
    }
}

impl Default for MarketLayer {
    /// The default layer, with the default queue capacity.
    fn default() -> (r: MarketLayer)
        ensures
            r.wf(),
            r.bound() == DEFAULT_MARKET_BUFFER,
    {
        MarketLayer { bound: DEFAULT_MARKET_BUFFER }
    }
}

} // verus!
