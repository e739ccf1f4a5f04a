//! The public path surface and the dispatch decision: which paths the proxy
//! serves at all, and whether a request on them is forwarded over HTTP or
//! handed to the WebSocket bridge.

use vstd::prelude::*;

use crate::headers::{header_views, is_websocket_upgrade, upgrade_requested};
use crate::text::{has_prefix, starts_with, str_eq};

verus! {

/// A per-item icon path: `/extension/icon/` followed by exactly one
/// non-empty segment.
pub open spec fn is_icon_path(p: Seq<char>) -> bool {
    &&& p.len() > "/extension/icon/"@.len()
    &&& has_prefix(p, "/extension/icon/"@)
    &&& forall|k: int| "/extension/icon/"@.len() <= k < p.len() ==> p[k] != '/'
}

/// The fixed public path surface: the health check, the per-item icon
/// resource, the versioned API root and subtree, and the documentation and
/// spec endpoints. Every other path has no route.
pub open spec fn is_proxied_path(p: Seq<char>) -> bool {
    ||| p == "/health"@
    ||| p == "/api/v1"@
    ||| p == "/docs"@
    ||| p == "/openapi.json"@
    ||| (p.len() > "/api/v1/"@.len() && has_prefix(p, "/api/v1/"@))
    ||| (p.len() > "/docs/"@.len() && has_prefix(p, "/docs/"@))
    ||| is_icon_path(p)
}

/// Whether the proxy serves `path` at all.
pub fn route_matches(path: &str) -> (r: bool)
    ensures
        r == is_proxied_path(path@),
{
    proof {
        reveal_strlit("/health");
        reveal_strlit("/api/v1");
        reveal_strlit("/docs");
        reveal_strlit("/openapi.json");
        reveal_strlit("/api/v1/");
        reveal_strlit("/docs/");
        reveal_strlit("/extension/icon/");
    }
    if str_eq(path, "/health") || str_eq(path, "/api/v1") || str_eq(path, "/docs") || str_eq(
        path,
        "/openapi.json",
    ) {
        return true;
    }
    let len = path.unicode_len();
    if starts_with(path, "/api/v1/") && len > 8 {
        return true;
    }
    if starts_with(path, "/docs/") && len > 6 {
        return true;
    }
    if starts_with(path, "/extension/icon/") && len > 16 {
        let mut i: usize = 16;
        while i < len
            invariant
                len == path@.len(),
                16 <= i <= len,
                forall|k: int| 16 <= k < i ==> path@[k] != '/',
                path@ != "/health"@,
                path@ != "/api/v1"@,
                path@ != "/docs"@,
                path@ != "/openapi.json"@,
                !(path@.len() > "/api/v1/"@.len() && has_prefix(path@, "/api/v1/"@)),
                !(path@.len() > "/docs/"@.len() && has_prefix(path@, "/docs/"@)),
                has_prefix(path@, "/extension/icon/"@),
                "/extension/icon/"@.len() == 16,
                path@.len() > 16,
            decreases len - i,
        {
            if path.get_char(i) == '/' {
                assert(!is_icon_path(path@)) by {
                    reveal_strlit("/extension/icon/");
                    assert(path@[i as int] == '/');
                }
                return false;
            }
            i = i + 1;
        }
        return true;
    }
    false
}

/// Where a request goes: nowhere, to the HTTP bridge, or to the WebSocket
/// bridge.
#[derive(Clone, Copy, Debug, PartialEq, Eq, Structural)]
pub enum Dispatch {
    NoRoute,
    HttpForward,
    WebSocketBridge,
}

/// Decides a request's treatment from its path and headers: unmapped paths
/// match no route; a mapped path with an `upgrade: websocket` header goes to
/// the WebSocket bridge; every other request on a mapped path is forwarded
/// over HTTP, whatever its method.
pub fn dispatch(path: &str, headers: &Vec<(String, String)>) -> (d: Dispatch)
    ensures
        d == if !is_proxied_path(path@) {
            Dispatch::NoRoute
        } else if upgrade_requested(header_views(headers@)) {
            Dispatch::WebSocketBridge
        } else {
            Dispatch::HttpForward
        },
{
    if !route_matches(path) {
        Dispatch::NoRoute
    } else if is_websocket_upgrade(headers) {
        Dispatch::WebSocketBridge
    } else {
        Dispatch::HttpForward
    }
}

} // verus!
