//! Header handling for both bridge legs: which request headers travel to the
//! backend on an HTTP forward, which travel on a WebSocket dial, and how an
//! upgrade request is recognized.
//!
//! Headers are plain `(name, value)` pairs with the name already in lower
//! case, as the HTTP layer hands them over.

use vstd::prelude::*;

use crate::text::{
    eq_fold, eq_ignore_ascii_case, split_commas, split_commas_trimmed, str_eq, trimmed_all,
    views_of,
};

verus! {

/// The views of a header list: each name and value as characters.
pub open spec fn header_views(hs: Seq<(String, String)>) -> Seq<(Seq<char>, Seq<char>)> {
    hs.map_values(|p: (String, String)| (p.0@, p.1@))
}

/// The headers forwarded on the HTTP leg: every header except `host`, in
/// their original order. `host` must be recomputed for the backend leg.
pub open spec fn non_host_headers(hs: Seq<(Seq<char>, Seq<char>)>) -> Seq<(Seq<char>, Seq<char>)>
    decreases hs.len(),
{
    if hs.len() == 0 {
        Seq::empty()
    } else {
        let rest = non_host_headers(hs.drop_last());
        if hs.last().0 != "host"@ {
            rest.push(hs.last())
        } else {
            rest
        }
    }
}

/// Copies every header except `host`, keeping the order.
pub fn forward_headers(hs: &Vec<(String, String)>) -> (out: Vec<(String, String)>)
    ensures
        header_views(out@) == non_host_headers(header_views(hs@)),
{
    let mut out: Vec<(String, String)> = Vec::new();
    let mut i: usize = 0;
    while i < hs.len()
        invariant
            0 <= i <= hs@.len(),
            header_views(out@) == non_host_headers(header_views(hs@.take(i as int))),
        decreases hs@.len() - i,
    {
        let keep = !str_eq(hs[i].0.as_str(), "host");
        if keep {
            out.push((hs[i].0.clone(), hs[i].1.clone()));
        }
        proof {
            let hv = header_views(hs@.take(i as int));
            let hv1 = header_views(hs@.take(i + 1));
            assert(hv1.drop_last() =~= hv);
            assert(hv1.last() == (hs@[i as int].0@, hs@[i as int].1@));
            if keep {
                assert(header_views(out@) =~= non_host_headers(hv).push(hv1.last()));
            } else {
                assert(header_views(out@) =~= non_host_headers(hv));
            }
        }
        i = i + 1;
    }
    proof {
        assert(hs@.take(hs@.len() as int) =~= hs@);
    }
    out
}

/// Soundness of the HTTP-leg header selection: no forwarded header is
/// named `host`.
pub proof fn lemma_non_host_headers_sound(hs: Seq<(Seq<char>, Seq<char>)>)
    ensures
        forall|k: int|
            0 <= k < non_host_headers(hs).len() ==> (#[trigger] non_host_headers(hs)[k]).0
                != "host"@,
    decreases hs.len(),
{
    if hs.len() > 0 {
        let t = hs.drop_last();
        lemma_non_host_headers_sound(t);
        let out = non_host_headers(hs);
        let rest = non_host_headers(t);
        assert forall|k: int| 0 <= k < out.len() implies (#[trigger] out[k]).0 != "host"@ by {
            if hs.last().0 != "host"@ {
                if k < rest.len() {
                    assert(out[k] == rest[k]);
                } else {
                    assert(out[k] == hs.last());
                }
            } else {
                assert(out[k] == rest[k]);
            }
        }
    }
}

/// Completeness of the HTTP-leg header selection: every inbound header not
/// named `host` is among the forwarded ones.
pub proof fn lemma_non_host_headers_complete(hs: Seq<(Seq<char>, Seq<char>)>)
    ensures
        forall|k: int|
            0 <= k < hs.len() && (#[trigger] hs[k]).0 != "host"@ ==> non_host_headers(hs).contains(
                hs[k],
            ),
    decreases hs.len(),
{
    if hs.len() > 0 {
        let t = hs.drop_last();
        lemma_non_host_headers_complete(t);
        let out = non_host_headers(hs);
        let rest = non_host_headers(t);
        assert forall|k: int| 0 <= k < hs.len() && (#[trigger] hs[k]).0 != "host"@ implies out
            .contains(hs[k]) by {
            if k == hs.len() - 1 {
                assert(out[out.len() - 1] == hs[k]);
            } else {
                assert(t[k] == hs[k]);
                assert(rest.contains(hs[k]));
                let j = choose|j: int| 0 <= j < rest.len() && rest[j] == hs[k];
                assert(out[j] == hs[k]);
            }
        }
    }
}

/// The value of the first header named `name`, if any.
pub open spec fn first_value(hs: Seq<(Seq<char>, Seq<char>)>, name: Seq<char>) -> Option<Seq<char>>
    decreases hs.len(),
{
    if hs.len() == 0 {
        None
    } else if hs[0].0 == name {
        Some(hs[0].1)
    } else {
        first_value(hs.drop_first(), name)
    }
}

proof fn lemma_first_value_at(hs: Seq<(Seq<char>, Seq<char>)>, name: Seq<char>, i: int)
    requires
        0 <= i <= hs.len(),
        forall|k: int| 0 <= k < i ==> hs[k].0 != name,
        i == hs.len() || hs[i].0 == name,
    ensures
        first_value(hs, name) == if i == hs.len() {
            None::<Seq<char>>
        } else {
            Some(hs[i].1)
        },
    decreases i,
{
    if i == 0 {
    } else {
        let t = hs.drop_first();
        lemma_first_value_at(t, name, i - 1);
    }
}

/// Looks a header up by its (lower-case) name, returning the first match.
pub fn header_value<'a>(hs: &'a Vec<(String, String)>, name: &str) -> (r: Option<&'a String>)
    ensures
        match r {
            Some(v) => first_value(header_views(hs@), name@) == Some(v@),
            None => first_value(header_views(hs@), name@) is None,
        },
{
    let mut i: usize = 0;
    while i < hs.len()
        invariant
            0 <= i <= hs@.len(),
            forall|k: int| 0 <= k < i ==> header_views(hs@)[k].0 != name@,
        ensures
            0 <= i <= hs@.len(),
            forall|k: int| 0 <= k < i ==> header_views(hs@)[k].0 != name@,
            i == hs@.len() || header_views(hs@)[i as int].0 == name@,
        decreases hs@.len() - i,
    {
        if str_eq(hs[i].0.as_str(), name) {
            break;
        }
        i = i + 1;
    }
    proof {
        lemma_first_value_at(header_views(hs@), name@, i as int);
    }
    if i < hs.len() {
        Some(&hs[i].1)
    } else {
        None
    }
}

/// What `name` contributes to the WebSocket dial: its first value under its
/// name, or nothing when the request does not carry it.
pub open spec fn attach_header(hs: Seq<(Seq<char>, Seq<char>)>, name: Seq<char>) -> Seq<
    (Seq<char>, Seq<char>),
> {
    match first_value(hs, name) {
        Some(v) => seq![(name, v)],
        None => Seq::empty(),
    }
}

/// The headers copied onto the backend-facing WebSocket handshake: a fixed
/// allow-list, in this order; every other inbound header is dropped on that
/// leg.
pub open spec fn ws_leg_headers(hs: Seq<(Seq<char>, Seq<char>)>) -> Seq<(Seq<char>, Seq<char>)> {
    attach_header(hs, "cookie"@) + attach_header(hs, "authorization"@) + attach_header(
        hs,
        "user-agent"@,
    ) + attach_header(hs, "sec-websocket-protocol"@) + attach_header(hs, "origin"@)
}

fn push_header_if_present(out: &mut Vec<(String, String)>, hs: &Vec<(String, String)>, name: &str)
    ensures
        header_views(final(out)@) == header_views(old(out)@) + attach_header(
            header_views(hs@),
            name@,
        ),
{
    match header_value(hs, name) {
        Some(v) => {
            let value = v.clone();
            out.push((String::from_str(name), value));
            proof {
                assert(header_views(out@) =~= header_views(old(out)@) + attach_header(
                    header_views(hs@),
                    name@,
                ));
            }
        },
        None => {
            proof {
                assert(header_views(out@) =~= header_views(old(out)@) + attach_header(
                    header_views(hs@),
                    name@,
                ));
            }
        },
    }
}

/// Selects the headers for the backend-facing WebSocket handshake:
/// `cookie`, `authorization`, `user-agent`, `sec-websocket-protocol` and
/// `origin`, each carried over with its first value when present.
pub fn forwarded_ws_headers(hs: &Vec<(String, String)>) -> (out: Vec<(String, String)>)
    ensures
        header_views(out@) == ws_leg_headers(header_views(hs@)),
{
    let mut out: Vec<(String, String)> = Vec::new();
    push_header_if_present(&mut out, hs, "cookie");
    push_header_if_present(&mut out, hs, "authorization");
    push_header_if_present(&mut out, hs, "user-agent");
    push_header_if_present(&mut out, hs, "sec-websocket-protocol");
    push_header_if_present(&mut out, hs, "origin");
    proof {
        assert(header_views(out@) =~= ws_leg_headers(header_views(hs@)));
    }
    out
}

/// The subprotocols a client upgrade request offers: the entries of its
/// `sec-websocket-protocol` header, split at commas and trimmed; none when
/// the request carries no such header.
pub fn offered_subprotocols(hs: &Vec<(String, String)>) -> (out: Vec<String>)
    ensures
        match first_value(header_views(hs@), "sec-websocket-protocol"@) {
            Some(v) => views_of(out@) == trimmed_all(split_commas(v)),
            None => out@.len() == 0,
        },
{
    match header_value(hs, "sec-websocket-protocol") {
        Some(v) => split_commas_trimmed(v.as_str()),
        None => Vec::new(),
    }
}

/// Whether a request asks for a WebSocket upgrade: it carries an `upgrade`
/// header equal to `websocket` ignoring ASCII case.
pub open spec fn upgrade_requested(hs: Seq<(Seq<char>, Seq<char>)>) -> bool {
    match first_value(hs, "upgrade"@) {
        Some(v) => eq_fold(v, "websocket"@),
        None => false,
    }
}

/// Detects a WebSocket upgrade request from the inbound headers.
pub fn is_websocket_upgrade(hs: &Vec<(String, String)>) -> (r: bool)
    ensures
        r == upgrade_requested(header_views(hs@)),
{
    match header_value(hs, "upgrade") {
        Some(v) => eq_ignore_ascii_case(v.as_str(), "websocket"),
        None => false,
    }
}

} // verus!
