use vstd::prelude::*;

verus! {

/// The host named by the URI that `s` parses to; `None` when `s` is not a
/// URI or names no host.
pub uninterp spec fn uri_host(s: Seq<char>) -> Option<Seq<char>>;

/// Relies on `http::Uri::from_str` and `http::Uri::host`: the host depends
/// on the text of the URI alone.
#[verifier::external_body]
pub(crate) fn host_of(s: &str) -> (r: Option<String>)
    ensures
        match r {
            Some(h) => uri_host(s@) == Some(h@),
            None => uri_host(s@) is None,
        },
{
    let uri = <http::Uri as std::str::FromStr>::from_str(s).ok()?;
    uri.host().map(|h| h.to_string())
}

} // verus!
