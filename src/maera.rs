use vstd::prelude::*;
use crate::chain::{Chain, Continuation};
use crate::cookies::{installed, Cookie, CookieJar, CookieKey};
use crate::request::{ChainableRequestBuilder, TransportError};
use crate::uri::{host_of, uri_host};

verus! {

/// The decision process after a request is made
#[derive(Clone, Copy, Debug, PartialEq, Eq, Structural)]
pub enum Decision {
    /// Do nothing, continue scraping as usual
    Continue,
    /// Runs the authorization process immediately
    Authorize,
    /// Stops the monitor from running
    Stop,
}

/// The behaviour of one monitored target.
pub trait JobHandler {
    type Response;

    type Steps: Continuation<Self::Response>;

    /// The chain to run on this tick, from a builder seeded with the job's base URL.
    fn request(&self, builder: ChainableRequestBuilder) -> Chain<Self::Response, Self::Steps>;

    /// Called when a request is successfully made
    fn on_success(&self, response: &mut Self::Response) -> Decision;

    /// Called when a request fails
    fn on_error(&self, error: TransportError) -> Decision {
        Decision::Continue
    }
}

/// Produces, on demand, the chain whose result is the set of session cookies to install.
pub trait Authorizer {
    type Steps: Continuation<Vec<Cookie>>;

    fn authorize(&self) -> Chain<Vec<Cookie>, Self::Steps>;
}

/// When a job's ticks come.
#[derive(Clone, Copy, Debug, PartialEq, Eq, Structural)]
pub enum Pacing {
    /// The next tick starts as soon as the previous decision is handled.
    ImmediateRepeat,
    /// Ticks are driven by an outside clock, this many milliseconds apart.
    FixedInterval(u64),
}

/// Why an authorization flow installed nothing.
#[derive(Clone, Debug)]
pub enum AuthorizationError {
    /// The authorization chain failed in the transport.
    Transport(TransportError),
    /// The job's base URL names no host to scope the cookies to.
    InvalidBaseUrl,
}

/// One configured monitoring target.
pub struct Job<T, A> {
    pub handler: T,
    pub authorizer: Option<A>,
    pub base_url: String,
    pub cookie_jar: CookieJar,
    pub pacing: Pacing,
}

impl<T, A> Job<T, A> {
    /// Merges the cookies an authorization chain produced into this job's own
    /// jar, scoped to `host`, the host of the job's base URL.
    pub fn install_cookies(&mut self, host: &str, cookies: Vec<Cookie>)
        requires
            old(self).cookie_jar.wf(),
        ensures
            final(self).cookie_jar.wf(),
            final(self).cookie_jar@ == installed(old(self).cookie_jar@, host@, cookies@),
            final(self).base_url == old(self).base_url,
            final(self).handler == old(self).handler,
            final(self).authorizer == old(self).authorizer,
            final(self).pacing == old(self).pacing,
    {
        self.cookie_jar.install(host, cookies);
    }

    /// Completes an authorization flow with the outcome of its chain: on
    /// success its cookies are installed for the host of the base URL. On
    /// failure, or when the base URL names no host, the jar is left as it was.
    pub fn finish_authorization(&mut self, outcome: Result<Vec<Cookie>, TransportError>) -> (r:
        Result<(), AuthorizationError>)
        requires
            old(self).cookie_jar.wf(),
        ensures
            final(self).cookie_jar.wf(),
            final(self).base_url == old(self).base_url,
            final(self).handler == old(self).handler,
            final(self).authorizer == old(self).authorizer,
            final(self).pacing == old(self).pacing,
            match outcome {
                Err(e) => {
                    &&& r == Err::<(), AuthorizationError>(AuthorizationError::Transport(e))
                    &&& final(self).cookie_jar@ == old(self).cookie_jar@
                },
                Ok(cs) => match uri_host(old(self).base_url@) {
                    None => {
                        &&& r == Err::<(), AuthorizationError>(AuthorizationError::InvalidBaseUrl)
                        &&& final(self).cookie_jar@ == old(self).cookie_jar@
                    },
                    Some(h) => {
                        &&& r is Ok
                        &&& final(self).cookie_jar@ == installed(old(self).cookie_jar@, h, cs@)
                    },
                },
            },
    {
        match outcome {
            Err(e) => Err(AuthorizationError::Transport(e)),
            Ok(cookies) => match host_of(self.base_url.as_str()) {
                None => Err(AuthorizationError::InvalidBaseUrl),
                Some(host) => {
                    self.cookie_jar.install(host.as_str(), cookies);
                    Ok(())
                },
            },
        }
    }
}

pub struct JobBuilder<T, A> {
    pub cookie_jar: Option<CookieJar>,
    pub base_url: Option<String>,
    pub handler: Option<T>,
    pub authorizer: Option<A>,
    pub pacing: Option<Pacing>,
}

impl<T, A> JobBuilder<T, A> {
    pub fn new() -> (r: Self)
        ensures
            r.cookie_jar is None,
            r.base_url is None,
            r.handler is None,
            r.authorizer is None,
            r.pacing is None,
    {
        JobBuilder {
            cookie_jar: None,
            base_url: None,
            handler: None,
            authorizer: None,
            pacing: None,
        }
    }

    pub fn cookie_jar(self, cookie_jar: CookieJar) -> (r: Self)
        ensures
            r.cookie_jar == Some(cookie_jar),
            r.base_url == self.base_url,
            r.handler == self.handler,
            r.authorizer == self.authorizer,
            r.pacing == self.pacing,
    {
        JobBuilder { cookie_jar: Some(cookie_jar), ..self }
    }

    pub fn base_url(self, base_url: String) -> (r: Self)
        ensures
            r.base_url == Some(base_url),
            r.cookie_jar == self.cookie_jar,
            r.handler == self.handler,
            r.authorizer == self.authorizer,
            r.pacing == self.pacing,
    {
        JobBuilder { base_url: Some(base_url), ..self }
    }

    pub fn handler(self, handler: T) -> (r: Self)
        ensures
            r.handler == Some(handler),
            r.cookie_jar == self.cookie_jar,
            r.base_url == self.base_url,
            r.authorizer == self.authorizer,
            r.pacing == self.pacing,
    {
        JobBuilder { handler: Some(handler), ..self }
    }

    pub fn authorizer(self, authorizer: A) -> (r: Self)
        ensures
            r.authorizer == Some(authorizer),
            r.cookie_jar == self.cookie_jar,
            r.base_url == self.base_url,
            r.handler == self.handler,
            r.pacing == self.pacing,
    {
        JobBuilder { authorizer: Some(authorizer), ..self }
    }

    pub fn pacing(self, pacing: Pacing) -> (r: Self)
        ensures
            r.pacing == Some(pacing),
            r.cookie_jar == self.cookie_jar,
            r.base_url == self.base_url,
            r.handler == self.handler,
            r.authorizer == self.authorizer,
    {
        JobBuilder { pacing: Some(pacing), ..self }
    }

    /// The job; its jar starts empty unless one was given, and it ticks
    /// immediately again unless a pacing was given.
    pub fn build(self) -> (r: Job<T, A>)
        requires
            self.base_url is Some,
            self.handler is Some,
            self.cookie_jar is Some ==> self.cookie_jar->Some_0.wf(),
        ensures
            r.base_url == self.base_url->Some_0,
            r.handler == self.handler->Some_0,
            r.authorizer == self.authorizer,
            r.pacing == (match self.pacing {
                Some(p) => p,
                None => Pacing::ImmediateRepeat,
            }),
            r.cookie_jar.wf(),
            r.cookie_jar@ == (match self.cookie_jar {
                Some(j) => j@,
                None => Map::<CookieKey, Seq<char>>::empty(),
            }),
    {
        let cookie_jar = match self.cookie_jar {
            Some(j) => j,
            None => CookieJar::new(),
        };
        let pacing = match self.pacing {
            Some(p) => p,
            None => Pacing::ImmediateRepeat,
        };
        Job {
            pacing,
            handler: self.handler.unwrap(),
            authorizer: self.authorizer,
            base_url: self.base_url.unwrap(),
            cookie_jar,
        }
    }
}

/// Where one job's loop stands.
#[derive(Clone, Copy, Debug, PartialEq, Eq, Structural)]
pub enum RunnerState {
    /// Not started yet.
    Init,
    /// The authorization chain is running.
    Authorizing,
    /// A tick's chain is being built and run.
    Running,
    /// The loop is over for good.
    Stopped,
}

/// What happened since the runner last decided.
#[derive(Clone, Copy, Debug, PartialEq, Eq, Structural)]
pub enum RunnerEvent {
    /// The job is started; `has_authorizer` tells whether it has an authorizer.
    Start { has_authorizer: bool },
    /// The authorization flow ended; `ok` tells whether its cookies were installed.
    Authorized { ok: bool },
    /// A tick ended with the handler's decision.
    Decided(Decision),
}

/// What the runner asks its driver to do next.
#[derive(Clone, Copy, Debug, PartialEq, Eq, Structural)]
pub enum RunnerStep {
    /// Run the authorization flow, then report `Authorized`.
    Authorize,
    /// Build and run the next tick's chain, then report `Decided`.
    Tick,
    /// Do nothing more for this job.
    Halt,
}

/// The runner's transition: its next state and the step it asks for. A
/// failed authorization ends the job; an event that does not fit the state
/// changes nothing and asks for nothing.
pub open spec fn transition(s: RunnerState, e: RunnerEvent) -> (RunnerState, RunnerStep) {
    match (s, e) {
        (RunnerState::Init, RunnerEvent::Start { has_authorizer }) => if has_authorizer {
            (RunnerState::Authorizing, RunnerStep::Authorize)
        } else {
            (RunnerState::Running, RunnerStep::Tick)
        },
        (RunnerState::Authorizing, RunnerEvent::Authorized { ok }) => if ok {
            (RunnerState::Running, RunnerStep::Tick)
        } else {
            (RunnerState::Stopped, RunnerStep::Halt)
        },
        (RunnerState::Running, RunnerEvent::Decided(d)) => match d {
            Decision::Continue => (RunnerState::Running, RunnerStep::Tick),
            Decision::Authorize => (RunnerState::Authorizing, RunnerStep::Authorize),
            Decision::Stop => (RunnerState::Stopped, RunnerStep::Halt),
        },
        (RunnerState::Stopped, _) => (RunnerState::Stopped, RunnerStep::Halt),
        _ => (s, RunnerStep::Halt),
    }
}

/// How a tick's decision governs the next: `Stop` ends the job for good, so
/// no later event brings another tick; `Continue` orders the next tick at
/// once; `Authorize` orders the authorization flow, and from there only its
/// successful end leads to a tick.
pub proof fn decisions_govern_next_tick()
    ensures
        transition(RunnerState::Running, RunnerEvent::Decided(Decision::Stop)) == (
            RunnerState::Stopped,
            RunnerStep::Halt,
        ),
        forall|e: RunnerEvent|
            #[trigger] transition(RunnerState::Stopped, e) == (
                RunnerState::Stopped,
                RunnerStep::Halt,
            ),
        transition(RunnerState::Running, RunnerEvent::Decided(Decision::Continue)) == (
            RunnerState::Running,
            RunnerStep::Tick,
        ),
        transition(RunnerState::Running, RunnerEvent::Decided(Decision::Authorize)) == (
            RunnerState::Authorizing,
            RunnerStep::Authorize,
        ),
        forall|e: RunnerEvent|
            #[trigger] transition(RunnerState::Authorizing, e).1 == RunnerStep::Tick ==> e == (
                RunnerEvent::Authorized { ok: true }),
{
}

/// The decisions of one job's loop, apart from the work they order.
pub struct JobRunner {
    pub state: RunnerState,
    /// How many ticks have been ordered so far.
    pub ticks: Ghost<nat>,
}

impl JobRunner {
    pub fn new() -> (r: Self)
        ensures
            r.state == RunnerState::Init,
            r.ticks@ == 0,
    {
        JobRunner { state: RunnerState::Init, ticks: Ghost(0) }
    }

    /// Takes in one event and returns the next step.
    pub fn advance(&mut self, event: RunnerEvent) -> (r: RunnerStep)
        ensures
            (final(self).state, r) == transition(old(self).state, event),
            final(self).ticks@ == old(self).ticks@ + (if r == RunnerStep::Tick {
                1nat
            } else {
                0nat
            }),
    {
        let (state, step) = match (self.state, event) {
            (RunnerState::Init, RunnerEvent::Start { has_authorizer }) => if has_authorizer {
                (RunnerState::Authorizing, RunnerStep::Authorize)
            } else {
                (RunnerState::Running, RunnerStep::Tick)
            },
            (RunnerState::Authorizing, RunnerEvent::Authorized { ok }) => if ok {
                (RunnerState::Running, RunnerStep::Tick)
            } else {
                (RunnerState::Stopped, RunnerStep::Halt)
            },
            (RunnerState::Running, RunnerEvent::Decided(d)) => match d {
                Decision::Continue => (RunnerState::Running, RunnerStep::Tick),
                Decision::Authorize => (RunnerState::Authorizing, RunnerStep::Authorize),
                Decision::Stop => (RunnerState::Stopped, RunnerStep::Halt),
            },
            (RunnerState::Stopped, _) => (RunnerState::Stopped, RunnerStep::Halt),
            (s, _) => (s, RunnerStep::Halt),
        };
        self.state = state;
        proof {
            if step == RunnerStep::Tick {
                self.ticks@ = self.ticks@ + 1;
            }
        }
        step
    }

    pub fn is_stopped(&self) -> (r: bool)
        ensures
            r == (self.state == RunnerState::Stopped),
    {
        self.state == RunnerState::Stopped
    }
}

} // verus!
