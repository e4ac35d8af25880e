use maera::chain::{Action, Chain, ChainRun, Continuation, Respond};
use maera::request::{ChainableRequest, ChainableRequestBuilder, Method, Response, TransportError};
use std::cell::Cell;
use std::rc::Rc;

fn get(url: &str, delay_ms: u64) -> ChainableRequest {
    ChainableRequestBuilder::new().url(url).delay(delay_ms).build()
}

fn response(body: &str) -> Response {
    Response { status: 200, headers: vec![], body: body.to_string() }
}

/// Drives a run to its end against a scripted transport; returns the result
/// and each request sent with the pause ordered before it.
fn drive<K, C: Continuation<K>>(
    chain: Chain<K, C>,
    mut transport: impl FnMut(&ChainableRequest) -> Result<Response, TransportError>,
) -> (Result<K, TransportError>, Vec<(String, u64)>) {
    let mut run = ChainRun::new(chain);
    let mut log = Vec::new();
    loop {
        match run.poll() {
            Action::Send { request, wait_ms } => {
                log.push((request.url.clone(), wait_ms));
                let outcome = transport(&request);
                run.deliver(outcome);
            }
            Action::Done(result) => return (result, log),
        }
    }
}

/// A chain of `remaining` further steps to `/s<n>`, counting resumptions.
struct Countdown {
    remaining: u32,
    resumed: Rc<Cell<u32>>,
}

impl Continuation<u32> for Countdown {
    fn resume(&self, _response: Response) -> Chain<u32, Countdown> {
        self.resumed.set(self.resumed.get() + 1);
        if self.remaining == 0 {
            Chain::end(self.resumed.get())
        } else {
            Chain::next(
                get(&format!("/s{}", self.remaining), 10 * self.remaining as u64),
                Countdown { remaining: self.remaining - 1, resumed: self.resumed.clone() },
            )
        }
    }
}

/// Step one asks `/a`; its body names the path asked next.
enum TwoStep {
    AfterA,
    AfterB,
}

impl Continuation<Response> for TwoStep {
    fn resume(&self, response: Response) -> Chain<Response, TwoStep> {
        match self {
            TwoStep::AfterA => {
                let path = if response.body == "x" { "/b" } else { "/other" };
                Chain::next(get(path, 5), TwoStep::AfterB)
            }
            TwoStep::AfterB => Chain::end(response),
        }
    }
}

#[test]
fn end_chain_returns_value_without_requests() {
    let chain: Chain<u32, Countdown> = Chain::end(7);
    let (result, log) = drive(chain, |_| panic!("no request expected"));
    assert_eq!(result.unwrap(), 7);
    assert!(log.is_empty());
}

#[test]
fn k_steps_issue_k_requests_in_order_with_delays_after_first() {
    let resumed = Rc::new(Cell::new(0));
    let first = get("/s3", 99);
    let chain = Chain::next(first, Countdown { remaining: 2, resumed: resumed.clone() });
    let (result, log) = drive(chain, |_| Ok(response("")));
    assert_eq!(result.unwrap(), 3);
    assert_eq!(
        log,
        vec![("/s3".to_string(), 0), ("/s2".to_string(), 20), ("/s1".to_string(), 10)]
    );
}

#[test]
fn failure_aborts_without_calling_continuation() {
    let resumed = Rc::new(Cell::new(0));
    let chain = Chain::next(get("/s3", 0), Countdown { remaining: 2, resumed: resumed.clone() });
    let mut calls = 0;
    let (result, log) = drive(chain, |_| {
        calls += 1;
        if calls == 2 {
            Err(TransportError { message: "reset".to_string() })
        } else {
            Ok(response(""))
        }
    });
    assert_eq!(result.err().unwrap().message, "reset");
    assert_eq!(log.len(), 2);
    assert_eq!(resumed.get(), 1);
}

#[test]
fn two_step_chain_follows_first_body() {
    let chain = Chain::next(get("/a", 5), TwoStep::AfterA);
    let (result, log) = drive(chain, |req| {
        Ok(response(if req.url == "/a" { "x" } else { "from b" }))
    });
    assert_eq!(result.unwrap().body, "from b");
    assert_eq!(log, vec![("/a".to_string(), 0), ("/b".to_string(), 5)]);
}

#[test]
fn single_request_chain_ends_with_its_response() {
    let chain = Chain::single(get("/one", 0));
    let (result, log) = drive(chain, |_| Ok(response("body")));
    assert_eq!(result.unwrap().body, "body");
    assert_eq!(log.len(), 1);
}

#[test]
fn poll_after_failure_reports_error_once() {
    let mut run = ChainRun::new(Chain::single(get("/a", 0)));
    match run.poll() {
        Action::Send { request, wait_ms } => {
            assert_eq!(request.url, "/a");
            assert_eq!(request.method, Method::Get);
            assert_eq!(wait_ms, 0);
        }
        Action::Done(_) => panic!("expected a request"),
    }
    run.deliver(Err(TransportError { message: "tls".to_string() }));
    match run.poll() {
        Action::Done(Err(e)) => assert_eq!(e.message, "tls"),
        _ => panic!("expected the error"),
    }
}

#[test]
fn request_converts_into_single_step_chain() {
    let chain: Chain<Response, Respond> = get("/c", 3).into();
    let (result, log) = drive(chain, |_| Ok(response("c")));
    assert_eq!(result.unwrap().body, "c");
    assert_eq!(log, vec![("/c".to_string(), 0)]);
}
