//! The connection wrapper: one raw exchange connection behind a bounded
//! dispatch queue.
//!
//! A [`Client`] is a cloneable front for exactly one underlying transport
//! connection. All handles feed one bounded queue consumed by a single
//! consumer loop; a caller offering a request when the queue is full must
//! wait (backpressure) — there is no error path for "queue full", only for
//! connection death. Each admitted request is identified by a ticket, which
//! names its caller's pending reply. When the underlying connection
//! terminates, every request still queued or in flight resolves with a
//! transport-error variant and the handle is permanently unusable.

use vstd::prelude::*;

verus! {

/// Default capacity of the dispatch queue behind one connection.
pub const DEFAULT_BUFFER_SIZE: usize = 1024;

/// A failure of the websocket transport layer.
#[derive(Debug)]
pub enum OkxError {
    /// The dispatch queue or its underlying connection is gone.
    Buffer(String),
}

/// The mathematical state of a dispatch queue.
pub struct BufferModel<R> {
    /// Capacity of the queue.
    pub bound: nat,
    /// Ticket the next admitted request will receive.
    pub next_ticket: u64,
    /// Requests admitted and not yet handed to the connection, oldest
    /// first, each with its ticket.
    pub pending: Seq<(u64, R)>,
    /// Ticket of the request handed to the connection and not yet
    /// completed, if any.
    pub in_flight: Option<u64>,
    /// Whether the underlying connection has terminated.
    pub closed: bool,
}

/// The tickets a closing queue must fail: the in-flight request first,
/// then every queued one in submission order.
pub open spec fn doomed_tickets<R>(m: BufferModel<R>) -> Seq<u64> {
    (match m.in_flight {
        Some(t) => seq![t],
        None => Seq::empty(),
    }) + m.pending.map_values(|p: (u64, R)| p.0)
}

/// Whether a queue in state `m` admits one more request at once, without
/// making the caller wait.
pub open spec fn admits<R>(m: BufferModel<R>) -> bool {
    !m.closed && m.pending.len() < m.bound
}

/// The state after one admitted request, or the same state where the queue
/// was full or dead.
pub open spec fn send_model<R>(m: BufferModel<R>, req: R) -> BufferModel<R> {
    if admits(m) {
        BufferModel {
            pending: m.pending.push((m.next_ticket, req)),
            next_ticket: if m.next_ticket == u64::MAX {
                0
            } else {
                (m.next_ticket + 1) as u64
            },
            ..m
        }
    } else {
        m
    }
}

/// The state after offering the requests of `reqs`, in order.
pub open spec fn send_run<R>(m0: BufferModel<R>, reqs: Seq<R>) -> BufferModel<R>
    decreases reqs.len(),
{
    if reqs.len() == 0 {
        m0
    } else {
        send_model(send_run(m0, reqs.drop_last()), reqs.last())
    }
}

/// Backpressure, first half: offered `n <= bound` requests, a fresh queue
/// admits every one of them at once — no send ever waits on admission.
pub proof fn lemma_no_wait_within_bound<R>(m0: BufferModel<R>, reqs: Seq<R>, k: int)
    requires
        m0.pending.len() == 0,
        !m0.closed,
        reqs.len() <= m0.bound,
        0 <= k < reqs.len(),
    ensures
        admits(send_run(m0, reqs.take(k))),
{
    lemma_run_admitted_all(m0, reqs.take(k));
}

/// Backpressure, second half: once `bound` requests are pending and none
/// was consumed, the next send finds the queue full and must wait.
pub proof fn lemma_wait_beyond_bound<R>(m0: BufferModel<R>, reqs: Seq<R>)
    requires
        m0.pending.len() == 0,
        !m0.closed,
        reqs.len() == m0.bound,
    ensures
        !admits(send_run(m0, reqs)),
{
    lemma_run_admitted_all(m0, reqs);
}

/// While the offered run stays within the bound, every request is admitted
/// and the pending queue holds exactly the run so far.
proof fn lemma_run_admitted_all<R>(m0: BufferModel<R>, reqs: Seq<R>)
    requires
        m0.pending.len() == 0,
        !m0.closed,
        reqs.len() <= m0.bound,
    ensures
        send_run(m0, reqs).pending.len() == reqs.len(),
        send_run(m0, reqs).bound == m0.bound,
        !send_run(m0, reqs).closed,
    decreases reqs.len(),
{
    if reqs.len() > 0 {
        lemma_run_admitted_all(m0, reqs.drop_last());
    }
}

/// What a caller learns from probing the queue for admission.
pub enum Admission {
    /// There is room: a request offered now is accepted at once.
    Granted,
    /// The queue is full: the caller must wait until a request is consumed.
    Wait,
    /// The underlying connection terminated; the handle is unusable.
    Dead,
}

/// What became of one offered request.
pub enum SendOutcome<R> {
    /// The request was admitted to the queue under this ticket.
    Enqueued(u64),
    /// The queue is full; the request is handed back so the caller can
    /// offer it again once a slot frees. The caller waits — this outcome is
    /// the suspension point, never an error.
    MustWait(R),
    /// The connection is gone; the request is handed back with the
    /// transport error that every request on this handle now receives.
    Dead(R, OkxError),
}

/// The bounded dispatch queue shared by every handle to one connection.
pub struct Buffer<R> {
    bound: usize,
    next_ticket: u64,
    queue: Vec<(u64, R)>,
    in_flight: Option<u64>,
    closed: bool,
}

impl<R> Buffer<R> {
    /// The mathematical state of this queue.
    pub closed spec fn model(&self) -> BufferModel<R> {
        BufferModel {
            bound: self.bound as nat,
            next_ticket: self.next_ticket,
            pending: self.queue@,
            in_flight: self.in_flight,
            closed: self.closed,
        }
    }

    /// The queue's internal invariant.
    pub closed spec fn wf(&self) -> bool {
        self.bound >= 1 && self.queue@.len() <= self.bound
    }

    /// A fresh queue of the given capacity in front of a live connection.
    pub fn new(bound: usize) -> (r: Buffer<R>)
        requires
            bound >= 1,
        ensures
            r.wf(),
            r.model() == (BufferModel::<R> {
                bound: bound as nat,
                next_ticket: 0,
                pending: Seq::empty(),
                in_flight: None,
                closed: false,
            }),
    {
        Buffer { bound, next_ticket: 0, queue: Vec::new(), in_flight: None, closed: false }
    }

    /// Probes for admission. Pure: the queue is not changed.
    pub fn poll_ready(&self) -> (r: Admission)
        requires
            self.wf(),
        ensures
            r is Dead <==> self.model().closed,
            r is Granted <==> admits(self.model()),
            r is Wait <==> (!self.model().closed && !admits(self.model())),
    {
        if self.closed {
            Admission::Dead
        } else if self.queue.len() < self.bound {
            Admission::Granted
        } else {
            Admission::Wait
        }
    }

    /// Admits one request, returning its ticket. Only legal right after
    /// admission was granted; `send` combines the probe and the enqueue.
    pub fn call(&mut self, req: R) -> (ticket: u64)
        requires
            old(self).wf(),
            admits(old(self).model()),
        ensures
            final(self).wf(),
            final(self).model() == send_model(old(self).model(), req),
            ticket == old(self).model().next_ticket,
    {
        let ticket = self.next_ticket;
        self.next_ticket = self.next_ticket.wrapping_add(1);
        self.queue.push((ticket, req));
        ticket
    }

    /// Offers one request: admitted at once when there is room, handed back
    /// when the caller must wait or the connection is dead.
    pub fn send(&mut self, req: R) -> (r: SendOutcome<R>)
        requires
            old(self).wf(),
        ensures
            final(self).wf(),
            old(self).model().bound >= 1,
            final(self).model() == send_model(old(self).model(), req),
            admits(old(self).model()) <==> (r matches SendOutcome::Enqueued(t) && t == old(
                self,
            ).model().next_ticket),
            !old(self).model().closed && !admits(old(self).model()) ==> (r matches SendOutcome::MustWait(
                q,
            ) && q == req),
            old(self).model().closed ==> (r matches SendOutcome::Dead(q, e) && q == req
                && e is Buffer),
    {
        if self.closed {
            SendOutcome::Dead(req, OkxError::Buffer("connection terminated".to_owned()))
        } else if self.queue.len() < self.bound {
            SendOutcome::Enqueued(self.call(req))
        } else {
            SendOutcome::MustWait(req)
        }
    }

    /// Hands the consumer loop the oldest pending request, which stays in
    /// flight under its ticket until `complete`: dispatch order is
    /// submission order, one request at a time.
    pub fn take_next(&mut self) -> (r: Option<(u64, R)>)
        requires
            old(self).wf(),
            old(self).model().in_flight is None,
        ensures
            final(self).wf(),
            final(self).model().bound == old(self).model().bound,
            final(self).model().next_ticket == old(self).model().next_ticket,
            final(self).model().closed == old(self).model().closed,
            old(self).model().pending.len() == 0 ==> r is None && *final(self) == *old(self),
            old(self).model().pending.len() > 0 ==> (r matches Some(taken) && taken == old(
                self,
            ).model().pending[0] && final(self).model().pending == old(
                self,
            ).model().pending.drop_first() && final(self).model().in_flight == Some(
                old(self).model().pending[0].0,
            )),
    {
        if self.queue.len() == 0 {
            None
        } else {
            let taken = self.queue.remove(0);
            proof {
                assert(self.queue@ =~= old(self).queue@.drop_first());
            }
            self.in_flight = Some(taken.0);
            Some(taken)
        }
    }

    /// The consumer finished the in-flight request — its caller's reply is
    /// resolved — and the slot frees for the next one.
    pub fn complete(&mut self) -> (ticket: u64)
        requires
            old(self).wf(),
            old(self).model().in_flight is Some,
        ensures
            final(self).wf(),
            Some(ticket) == old(self).model().in_flight,
            final(self).model() == (BufferModel { in_flight: None, ..old(self).model() }),
    {
        let mut fly: Option<u64> = None;
        core::mem::swap(&mut fly, &mut self.in_flight);
        match fly {
            Some(t) => t,
            None => 0,  // unreachable under the precondition
        }
    }

    /// The underlying connection terminated: the queue closes for good, and
    /// every request still queued or in flight resolves, in order, with a
    /// transport-error variant — none hangs, none silently succeeds.
    pub fn close(&mut self) -> (failed: Vec<(u64, OkxError)>)
        requires
            old(self).wf(),
        ensures
            final(self).wf(),
            final(self).model().closed,
            final(self).model().pending.len() == 0,
            final(self).model().in_flight is None,
            final(self).model().bound == old(self).model().bound,
            failed@.len() == doomed_tickets(old(self).model()).len(),
            forall|i: int|
                0 <= i < failed@.len() ==> #[trigger] failed@[i].0 == doomed_tickets(
                    old(self).model(),
                )[i] && failed@[i].1 is Buffer,
    {
        let ghost doomed = doomed_tickets(old(self).model());
        let ghost off: int = doomed.len() - old(self).queue@.len();
        self.closed = true;
        let mut failed: Vec<(u64, OkxError)> = Vec::new();
        let mut fly: Option<u64> = None;
        core::mem::swap(&mut fly, &mut self.in_flight);
        match fly {
            Some(t) => {
                failed.push((t, OkxError::Buffer("connection terminated".to_owned())));
                proof {
                    assert(doomed[0] == t);
                }
            },
            None => (),
        }
        while self.queue.len() > 0
            invariant
                self.bound == old(self).bound,
                self.next_ticket == old(self).next_ticket,
                self.closed,
                self.in_flight is None,
                self.bound >= 1,
                doomed == doomed_tickets(old(self).model()),
                off == doomed.len() - old(self).queue@.len(),
                off <= failed@.len(),
                self.queue@.len() + failed@.len() == doomed.len(),
                forall|i: int|
                    0 <= i < failed@.len() ==> #[trigger] failed@[i].0 == doomed[i]
                        && failed@[i].1 is Buffer,
                forall|i: int|
                    0 <= i < self.queue@.len() ==> #[trigger] self.queue@[i] == old(
                        self,
                    ).queue@[i + failed@.len() - off],
            decreases self.queue@.len(),
        {
            let ghost drained = failed@.len() - off;
            let entry = self.queue.remove(0);
            proof {
                assert(self.queue@ =~= old(self).queue@.subrange(
                    drained + 1,
                    old(self).queue@.len() as int,
                ));
                assert(old(self).queue@.map_values(|p: (u64, R)| p.0)[drained] == old(
                    self,
                ).queue@[drained].0);
                assert(doomed[drained + off] == old(self).queue@[drained].0);
            }
            failed.push((entry.0, OkxError::Buffer("connection terminated".to_owned())));
        }
        failed
    }
}

/// A cloneable handle to one underlying websocket connection.
///
/// Cloning the handle shares the dispatch queue; it never creates a new
/// connection. The handle's probe-then-call discipline mirrors the queue's:
/// probe for admission, then enqueue.
pub struct Client<R> {
    svc: Buffer<R>,
}

impl<R> Client<R> {
    /// The mathematical state of the shared dispatch queue.
    pub closed spec fn model(&self) -> BufferModel<R> {
        self.svc.model()
    }

    /// The handle's internal invariant.
    pub closed spec fn wf(&self) -> bool {
        self.svc.wf()
    }

    /// Wraps a dispatch queue in a handle.
    pub fn new(svc: Buffer<R>) -> (r: Client<R>)
        requires
            svc.wf(),
        ensures
            r.wf(),
            r.model() == svc.model(),
    {
        Client { svc }
    }

    /// Probes the shared queue for admission.
    pub fn poll_ready(&self) -> (r: Admission)
        requires
            self.wf(),
        ensures
            r is Dead <==> self.model().closed,
            r is Granted <==> admits(self.model()),
            r is Wait <==> (!self.model().closed && !admits(self.model())),
    {
        self.svc.poll_ready()
    }

    /// Enqueues a request for which admission was granted.
    pub fn call(&mut self, req: R) -> (ticket: u64)
        requires
            old(self).wf(),
            admits(old(self).model()),
        ensures
            final(self).wf(),
            final(self).model() == send_model(old(self).model(), req),
            ticket == old(self).model().next_ticket,
    {
        self.svc.call(req)
    }

    /// Offers one request, combining the admission probe and the enqueue,
    /// exactly as a caller awaiting readiness and then calling would.
    pub fn send(&mut self, req: R) -> (r: SendOutcome<R>)
        requires
            old(self).wf(),
        ensures
            final(self).wf(),
            old(self).model().bound >= 1,
            final(self).model() == send_model(old(self).model(), req),
            admits(old(self).model()) <==> (r matches SendOutcome::Enqueued(t) && t == old(
                self,
            ).model().next_ticket),
            !old(self).model().closed && !admits(old(self).model()) ==> (r matches SendOutcome::MustWait(
                q,
            ) && q == req),
            old(self).model().closed ==> (r matches SendOutcome::Dead(q, e) && q == req
                && e is Buffer),
    {
        self.svc.send(req)
    }

    /// Hands the consumer loop the oldest pending request.
    pub fn take_next(&mut self) -> (r: Option<(u64, R)>)
        requires
            old(self).wf(),
            old(self).model().in_flight is None,
        ensures
            final(self).wf(),
            final(self).model().bound == old(self).model().bound,
            final(self).model().next_ticket == old(self).model().next_ticket,
            final(self).model().closed == old(self).model().closed,
            old(self).model().pending.len() == 0 ==> r is None && *final(self) == *old(self),
            old(self).model().pending.len() > 0 ==> (r matches Some(taken) && taken == old(
                self,
            ).model().pending[0] && final(self).model().pending == old(
                self,
            ).model().pending.drop_first() && final(self).model().in_flight == Some(
                old(self).model().pending[0].0,
            )),
    {
        self.svc.take_next()
    }

    /// The consumer finished the in-flight request.
    pub fn complete(&mut self) -> (ticket: u64)
        requires
            old(self).wf(),
            old(self).model().in_flight is Some,
        ensures
            final(self).wf(),
            Some(ticket) == old(self).model().in_flight,
            final(self).model() == (BufferModel { in_flight: None, ..old(self).model() }),
    {
        self.svc.complete()
    }

    /// The underlying connection terminated: fail every request still
    /// queued or in flight with a transport error and close the handle for
    /// good.
    pub fn close(&mut self) -> (failed: Vec<(u64, OkxError)>)
        requires
            old(self).wf(),
        ensures
            final(self).wf(),
            final(self).model().closed,
            final(self).model().pending.len() == 0,
            final(self).model().in_flight is None,
            failed@.len() == doomed_tickets(old(self).model()).len(),
            forall|i: int|
                0 <= i < failed@.len() ==> #[trigger] failed@[i].0 == doomed_tickets(
                    old(self).model(),
                )[i] && failed@[i].1 is Buffer,
    {
        self.svc.close()
    }
}

/// A websocket endpoint: the address a connection is made to.
pub struct Endpoint {
    /// Address of the public websocket API.
    pub uri: String,
}

impl Default for Endpoint {
    /// The default public websocket endpoint.
    fn default() -> (r: Endpoint)
        ensures
            r.uri@ == "wss://wsaws.okex.com:8443/ws/v5/public"@,
    {
        Endpoint { uri: "wss://wsaws.okex.com:8443/ws/v5/public".to_owned() }
    }
}

impl Endpoint {
    /// Connects, creating a fresh handle over a new dispatch queue of the
    /// default capacity. The raw connection itself lives with the consumer
    /// loop that drains the queue.
    pub fn connect<R>(&self) -> (r: Client<R>)
        ensures
            r.wf(),
            r.model() == (BufferModel::<R> {
                bound: DEFAULT_BUFFER_SIZE as nat,
                next_ticket: 0,
                pending: Seq::empty(),
                in_flight: None,
                closed: false,
            }),
    {
        let svc = Buffer::new(DEFAULT_BUFFER_SIZE);
        Client::new(svc)
    }
}

} // verus!
