//! The HTTP bridge's decisions: how an inbound request is replayed against
//! the backend, and what the client is answered once the backend leg ends.
//! The streaming itself — bodies travel as byte chunks in arrival order,
//! never buffered whole — is carried by the transport around this module.

use vstd::prelude::*;

use crate::headers::{forward_headers, header_views, non_host_headers};
use crate::text::{has_prefix, starts_with};
use crate::urls::join_url;

verus! {

/// The path sent to the backend: the inbound path-and-query, with a
/// configured mount prefix stripped when one is set and matches.
pub open spec fn target_path(pq: Seq<char>, strip: Seq<char>) -> Seq<char> {
    if strip.len() > 0 && has_prefix(pq, strip) {
        pq.skip(strip.len() as int)
    } else {
        pq
    }
}

/// Everything the HTTP client needs to replay one request against the
/// backend: the rebuilt URL, the original method, and the forwarded headers.
pub struct ForwardPlan {
    pub url: String,
    pub method: String,
    pub headers: Vec<(String, String)>,
}

/// Plans one HTTP forward: the target URL is the backend base URL plus the
/// inbound path-and-query (after prefix stripping), the method is carried
/// over unchanged, and every header but `host` is copied in order.
pub fn plan_forward(
    base_url: &str,
    strip_prefix: &str,
    method: String,
    path_query: &str,
    headers: &Vec<(String, String)>,
) -> (p: ForwardPlan)
    ensures
        p.url@ == base_url@ + target_path(path_query@, strip_prefix@),
        p.method@ == method@,
        header_views(p.headers@) == non_host_headers(header_views(headers@)),
{
    let len = path_query.unicode_len();
    let plen = strip_prefix.unicode_len();
    let target: &str = if plen > 0 && starts_with(path_query, strip_prefix) {
        path_query.substring_char(plen, len)
    } else {
        path_query
    };
    ForwardPlan { url: join_url(base_url, target), method, headers: forward_headers(headers) }
}

/// How the backend leg of one HTTP forward ended: a response arrived, or
/// the backend could not be reached (refused, timed out, reset).
pub enum BackendOutcome {
    Responded { status: u16, headers: Vec<(String, String)> },
    Unreachable,
}

/// The response head answered to the client, and whether the backend's
/// body is streamed after it.
pub struct ResponseHead {
    pub status: u16,
    pub headers: Vec<(String, String)>,
    pub stream_backend_body: bool,
}

/// Decides the client's response from the backend leg's outcome: a backend
/// response is passed back verbatim — its status, every header, and its
/// body streamed through; an unreachable backend is answered with exactly
/// status `502`, no headers and an empty body, terminal for this request
/// and never retried here.
pub fn response_head_for(outcome: BackendOutcome) -> (r: ResponseHead)
    ensures
        (outcome matches BackendOutcome::Responded { status, headers } ==> r.status == status
            && r.headers == headers && r.stream_backend_body),
        outcome is Unreachable ==> r.status == 502 && r.headers@.len() == 0
            && !r.stream_backend_body,
{
    match outcome {
        BackendOutcome::Responded { status, headers } => ResponseHead {
            status,
            headers,
            stream_backend_body: true,
        },
        BackendOutcome::Unreachable => ResponseHead {
            status: 502,
            headers: Vec::new(),
            stream_backend_body: false,
        },
    }
}

} // verus!
