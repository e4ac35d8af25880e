use vstd::prelude::*;
use crate::request::{ChainableRequest, Response, TransportError};

verus! {

/// Declarative chaining of requests: either a final value, or one pending
/// request together with the continuation that turns its response into the
/// rest of the chain.
pub enum Chain<K, C> {
    /// Final product
    End(K),
    Next(ChainableRequest, C),
}

/// What decides the remainder of a chain once a response has arrived.
pub trait Continuation<K>: Sized {
    fn resume(&self, response: Response) -> Chain<K, Self>;
}

/// The continuation that ends a chain with the response it was given.
#[derive(Clone, Copy, Debug)]
pub struct Respond;

impl Continuation<Response> for Respond {
    fn resume(&self, response: Response) -> Chain<Response, Respond> {
        Chain::End(response)
    }
}

impl<K, C> Chain<K, C> {
    pub fn end(k: K) -> (r: Self)
        ensures
            r == Chain::<K, C>::End(k),
    {
        Chain::End(k)
    }

    pub fn next(request: ChainableRequest, f: C) -> (r: Self)
        ensures
            r == Chain::<K, C>::Next(request, f),
    {
        Chain::Next(request, f)
    }
}

impl Chain<Response, Respond> {
    /// A chain of exactly one request, ending with its response.
    pub fn single(request: ChainableRequest) -> (r: Self)
        ensures
            r == Chain::<Response, Respond>::Next(request, Respond),
    {
        Chain::Next(request, Respond)
    }
}

impl From<ChainableRequest> for Chain<Response, Respond> {
    fn from(request: ChainableRequest) -> (r: Self) {
        Chain::Next(request, Respond)
    }
}

impl vstd::std_specs::convert::FromSpecImpl<ChainableRequest> for Chain<Response, Respond> {
    open spec fn obeys_from_spec() -> bool {
        true
    }

    open spec fn from_spec(request: ChainableRequest) -> Self {
        Chain::Next(request, Respond)
    }
}

/// What the driver of a run must do next.
pub enum Action<K> {
    /// Wait `wait_ms` milliseconds, then send `request` and deliver the outcome.
    Send { request: ChainableRequest, wait_ms: u64 },
    /// The run is over, with this result.
    Done(Result<K, TransportError>),
}

/// Where a run stands between two calls of its driver.
pub enum Phase<K, C> {
    /// The chain's current state, to be looked at by `poll`.
    Ready(Chain<K, C>),
    /// A request is out; this continuation waits for its response.
    Waiting(C),
    /// The transport failed; the run ends with this error.
    Failed(TransportError),
    /// The run has handed out its result.
    Finished,
}

/// One execution of a chain. The driver alternates `poll` (what to do) and
/// `deliver` (what the transport answered) until `poll` returns `Done`.
pub struct ChainRun<K, C> {
    pub phase: Phase<K, C>,
    /// Whether a request has been handed out already.
    pub started: bool,
    /// The requests handed out so far, in order.
    pub sent: Ghost<Seq<ChainableRequest>>,
    /// The pause ordered before each of them.
    pub waits: Ghost<Seq<u64>>,
}

/// The pause owed before the request at `index` of a run.
pub open spec fn wait_before(index: int, request: ChainableRequest) -> u64 {
    if index == 0 {
        0
    } else {
        request.delay_ms
    }
}

/// What `poll` answers in `phase`, after `count` requests.
pub open spec fn poll_action<K, C>(phase: Phase<K, C>, count: nat) -> Action<K> {
    match phase {
        Phase::Ready(Chain::End(v)) => Action::Done(Ok(v)),
        Phase::Ready(Chain::Next(req, _)) => Action::Send {
            request: req,
            wait_ms: wait_before(count as int, req),
        },
        Phase::Failed(e) => Action::Done(Err(e)),
        _ => arbitrary(),
    }
}

/// The phase that `poll` leaves behind.
pub open spec fn after_poll<K, C>(phase: Phase<K, C>) -> Phase<K, C> {
    match phase {
        Phase::Ready(Chain::Next(_, c)) => Phase::Waiting(c),
        Phase::Waiting(c) => Phase::Waiting(c),
        _ => Phase::Finished,
    }
}

/// The requests handed out once `poll` has run: one more exactly when a step was pending.
pub open spec fn sent_after_poll<K, C>(phase: Phase<K, C>, sent: Seq<ChainableRequest>) -> Seq<
    ChainableRequest,
> {
    match phase {
        Phase::Ready(Chain::Next(req, _)) => sent.push(req),
        _ => sent,
    }
}

/// A run of a chain that is already at its end yields that value at once
/// and hands out no request.
pub proof fn end_chain_sends_nothing<K, C>(v: K)
    ensures
        poll_action(Phase::<K, C>::Ready(Chain::End(v)), 0) == Action::<K>::Done(Ok(v)),
        after_poll(Phase::<K, C>::Ready(Chain::End(v))) is Finished,
        sent_after_poll(Phase::<K, C>::Ready(Chain::End(v)), Seq::empty()).len() == 0,
{
}

/// Each pending step hands out exactly its own request, appended after the
/// earlier ones; the pause before it is its delay, except for the first
/// request of the run, which goes out at once.
pub proof fn steps_sent_in_order<K, C>(
    req: ChainableRequest,
    c: C,
    sent: Seq<ChainableRequest>,
)
    ensures
        sent_after_poll(Phase::<K, C>::Ready(Chain::Next(req, c)), sent) == sent.push(req),
        poll_action(Phase::<K, C>::Ready(Chain::Next(req, c)), sent.len()) == (Action::<K>::Send {
            request: req,
            wait_ms: if sent.len() == 0 {
                0
            } else {
                req.delay_ms
            },
        }),
        after_poll(Phase::<K, C>::Ready(Chain::Next(req, c))) == Phase::<K, C>::Waiting(c),
{
}

/// Once the transport has failed, the run ends with that very error and
/// hands out no further request.
pub proof fn failure_ends_run<K, C>(
    e: TransportError,
    sent: Seq<ChainableRequest>,
)
    ensures
        poll_action(Phase::<K, C>::Failed(e), sent.len()) == Action::<K>::Done(Err(e)),
        after_poll(Phase::<K, C>::Failed(e)) is Finished,
        sent_after_poll(Phase::<K, C>::Failed(e), sent) == sent,
{
}

impl<K, C: Continuation<K>> ChainRun<K, C> {
    /// The record of a run is consistent: one pause per request, none before the first.
    pub open spec fn wf(&self) -> bool {
        &&& self.waits@.len() == self.sent@.len()
        &&& self.started == (self.sent@.len() > 0)
        &&& forall|i: int|
            0 <= i < self.sent@.len() ==> #[trigger] self.waits@[i] == wait_before(
                i,
                self.sent@[i],
            )
    }

    /// In any consistent record no pause precedes the first request and every
    /// later request is preceded by its own delay.
    pub proof fn delays_follow_first(&self)
        requires
            self.wf(),
        ensures
            forall|i: int|
                0 <= i < self.sent@.len() ==> #[trigger] self.waits@[i] == (if i == 0 {
                    0
                } else {
                    self.sent@[i].delay_ms
                }),
    {
    }

    pub fn new(chain: Chain<K, C>) -> (r: Self)
        ensures
            r.wf(),
            r.phase == Phase::Ready(chain),
            r.sent@ == Seq::<ChainableRequest>::empty(),
    {
        ChainRun {
            phase: Phase::Ready(chain),
            started: false,
            sent: Ghost(Seq::empty()),
            waits: Ghost(Seq::empty()),
        }
    }

    /// Says what to do next. A finished chain yields its value; a pending
    /// step yields its request, with its delay unless it is the first.
    pub fn poll(&mut self) -> (r: Action<K>)
        requires
            old(self).wf(),
            !(old(self).phase is Waiting),
            !(old(self).phase is Finished),
        ensures
            final(self).wf(),
            r == poll_action(old(self).phase, old(self).sent@.len()),
            final(self).phase == after_poll(old(self).phase),
            final(self).sent@ == sent_after_poll(old(self).phase, old(self).sent@),
    {
        let mut phase = Phase::Finished;
        core::mem::swap(&mut phase, &mut self.phase);
        match phase {
            Phase::Ready(Chain::End(v)) => Action::Done(Ok(v)),
            Phase::Ready(Chain::Next(req, c)) => {
                let wait_ms: u64 = if self.started {
                    req.delay_ms
                } else {
                    0
                };
                proof {
                    self.sent@ = self.sent@.push(req);
                    self.waits@ = self.waits@.push(wait_ms);
                }
                self.started = true;
                self.phase = Phase::Waiting(c);
                Action::Send { request: req, wait_ms }
            },
            Phase::Failed(e) => Action::Done(Err(e)),
            Phase::Waiting(c) => {
                self.phase = Phase::Waiting(c);
                Action::Done(Err(TransportError { message: String::new() }))
            },
            Phase::Finished => Action::Done(Err(TransportError { message: String::new() })),
        }
    }

    /// Hands the transport's answer to the waiting step. A failure ends the
    /// run with that error and the continuation is never called.
    pub fn deliver(&mut self, outcome: Result<Response, TransportError>)
        requires
            old(self).wf(),
            old(self).phase is Waiting,
        ensures
            final(self).wf(),
            final(self).sent@ == old(self).sent@,
            outcome is Ok ==> final(self).phase is Ready,
            outcome is Err ==> final(self).phase == Phase::<K, C>::Failed(outcome->Err_0),
    {
        let mut phase = Phase::Finished;
        core::mem::swap(&mut phase, &mut self.phase);
        match phase {
            Phase::Waiting(c) => {
                match outcome {
                    Ok(response) => {
                        self.phase = Phase::Ready(c.resume(response));
                    },
                    Err(e) => {
                        self.phase = Phase::Failed(e);
                    },
                }
            },
            other => {
                self.phase = other;
            },
        }
    }
}

} // verus!
