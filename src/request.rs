use vstd::prelude::*;
use vstd::string::StringExecFns;

verus! {

/// The HTTP method of one chained request.
#[derive(Clone, Copy, Debug, PartialEq, Eq, Structural)]
pub enum Method {
    Get,
    Post,
    Put,
    Delete,
    Head,
    Options,
    Patch,
    Connect,
    Trace,
}

/// One fully described step of a chain, ready to be handed to the transport.
#[derive(Clone, Debug)]
pub struct ChainableRequest {
    pub url: String,
    pub method: Method,
    /// Headers are all appended, in order, duplicates allowed.
    pub headers: Vec<(String, String)>,
    pub body: Option<String>,
    /// Pause before this request, in milliseconds, when it is not the first of its chain.
    pub delay_ms: u64,
}

/// What the transport handed back for one request, with its body read in full.
#[derive(Clone, Debug)]
pub struct Response {
    pub status: u16,
    pub headers: Vec<(String, String)>,
    pub body: String,
}

/// A network, TLS or protocol failure reported by the transport.
#[derive(Clone, Debug)]
pub struct TransportError {
    pub message: String,
}

/// Step-by-step construction of a [`ChainableRequest`].
pub struct ChainableRequestBuilder {
    pub base_url: Option<String>,
    pub url: Option<String>,
    pub method: Option<Method>,
    /// Headers are all appended
    pub headers: Vec<(String, String)>,
    pub body: Option<String>,
    pub delay_ms: Option<u64>,
}

impl ChainableRequestBuilder {
    pub fn new() -> (r: Self)
        ensures
            r.base_url is None,
            r.url is None,
            r.method is None,
            r.headers@.len() == 0,
            r.body is None,
            r.delay_ms is None,
    {
        ChainableRequestBuilder {
            base_url: None,
            url: None,
            method: None,
            headers: Vec::new(),
            body: None,
            delay_ms: None,
        }
    }

    pub fn from_base_url(base_url: String) -> (r: Self)
        ensures
            r.base_url == Some(base_url),
            r.url is None,
            r.method is None,
            r.headers@.len() == 0,
            r.body is None,
            r.delay_ms is None,
    {
        ChainableRequestBuilder {
            base_url: Some(base_url),
            url: None,
            method: None,
            headers: Vec::new(),
            body: None,
            delay_ms: None,
        }
    }

    /// Sets the target to the base URL (empty when there is none) followed by `url`.
    pub fn url(self, url: &str) -> (r: Self)
        ensures
            r.url is Some,
            r.url->Some_0@ == base_text(self.base_url) + url@,
            r.base_url == self.base_url,
            r.method == self.method,
            r.headers == self.headers,
            r.body == self.body,
            r.delay_ms == self.delay_ms,
    {
        let base = match &self.base_url {
            Some(b) => b.clone(),
            None => String::new(),
        };
        let full = base.concat(url);
        ChainableRequestBuilder { url: Some(full), ..self }
    }

    pub fn method(self, method: Method) -> (r: Self)
        ensures
            r.method == Some(method),
            r.base_url == self.base_url,
            r.url == self.url,
            r.headers == self.headers,
            r.body == self.body,
            r.delay_ms == self.delay_ms,
    {
        ChainableRequestBuilder { method: Some(method), ..self }
    }

    /// Appends one header; earlier headers, even of the same name, are kept.
    pub fn header(self, key: String, value: String) -> (r: Self)
        ensures
            r.headers@ == self.headers@.push((key, value)),
            r.base_url == self.base_url,
            r.url == self.url,
            r.method == self.method,
            r.body == self.body,
            r.delay_ms == self.delay_ms,
    {
        let mut headers = self.headers;
        headers.push((key, value));
        ChainableRequestBuilder { headers, ..self }
    }

    pub fn body(self, body: String) -> (r: Self)
        ensures
            r.body == Some(body),
            r.base_url == self.base_url,
            r.url == self.url,
            r.method == self.method,
            r.headers == self.headers,
            r.delay_ms == self.delay_ms,
    {
        ChainableRequestBuilder { body: Some(body), ..self }
    }

    pub fn delay(self, delay_ms: u64) -> (r: Self)
        ensures
            r.delay_ms == Some(delay_ms),
            r.base_url == self.base_url,
            r.url == self.url,
            r.method == self.method,
            r.headers == self.headers,
            r.body == self.body,
    {
        ChainableRequestBuilder { delay_ms: Some(delay_ms), ..self }
    }

    /// Finishes the request: the method defaults to GET and the delay to zero.
    pub fn build(self) -> (r: ChainableRequest)
        requires
            self.url is Some,
        ensures
            r.url == self.url->Some_0,
            r.method == (match self.method {
                Some(m) => m,
                None => Method::Get,
            }),
            r.headers == self.headers,
            r.body == self.body,
            r.delay_ms == (match self.delay_ms {
                Some(d) => d,
                None => 0,
            }),
    {
        let method = match self.method {
            Some(m) => m,
            None => Method::Get,
        };
        let delay_ms: u64 = match self.delay_ms {
            Some(d) => d,
            None => 0,
        };
        let url = match self.url {
            Some(u) => u,
            None => String::new(),
        };
        ChainableRequest { url, method, headers: self.headers, body: self.body, delay_ms }
    }
}

/// The text a builder puts in front of every URL.
pub open spec fn base_text(base_url: Option<String>) -> Seq<char> {
    match base_url {
        Some(b) => b@,
        None => Seq::empty(),
    }
}

} // verus!
