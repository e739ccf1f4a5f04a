//! URL construction for both backend legs: the HTTP target URL and the
//! scheme translation for a WebSocket dial.

use vstd::prelude::*;

use crate::text::{has_prefix, starts_with};

verus! {

/// The backend URL for a WebSocket dial: `http` becomes `ws`, `https`
/// becomes `wss`, and a bare authority is dialed as `ws`.
pub open spec fn ws_url_of(base: Seq<char>) -> Seq<char> {
    if has_prefix(base, "https://"@) {
        "wss://"@ + base.skip("https://"@.len() as int)
    } else if has_prefix(base, "http://"@) {
        "ws://"@ + base.skip("http://"@.len() as int)
    } else {
        "ws://"@ + base
    }
}

/// Translates the backend's base URL scheme for a WebSocket dial.
pub fn backend_ws_url(base: &str) -> (r: String)
    ensures
        r@ == ws_url_of(base@),
{
    proof {
        reveal_strlit("https://");
        reveal_strlit("http://");
        reveal_strlit("wss://");
        reveal_strlit("ws://");
    }
    let len = base.unicode_len();
    if starts_with(base, "https://") {
        let mut r = String::from_str("wss://");
        r.append(base.substring_char(8, len));
        r
    } else if starts_with(base, "http://") {
        let mut r = String::from_str("ws://");
        r.append(base.substring_char(7, len));
        r
    } else {
        let mut r = String::from_str("ws://");
        r.append(base);
        r
    }
}

/// Joins a base URL and a path-and-query by plain concatenation, as both
/// bridge legs build their target URL.
pub fn join_url(base: &str, path_query: &str) -> (r: String)
    ensures
        r@ == base@ + path_query@,
{
    let mut r = String::from_str(base);
    r.append(path_query);
    r
}

} // verus!
