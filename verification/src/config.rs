//! The proxy's configuration snapshot: listen address, backend parameters,
//! feature flags and filesystem paths. Resolved once at startup from the
//! environment (outside this library) and never mutated afterwards.

use vstd::prelude::*;

use crate::text::{append_dec, dec_str, eq_fold, eq_ignore_ascii_case};

verus! {

/// Immutable settings for the listener and the backend it manages.
///
/// `host` and `port` are the public listen address. The remaining fields are
/// handed to the backend's startup call: feature toggles, a cache TTL and the
/// filesystem paths the backend works in.
#[derive(Clone, Debug)]
pub struct Config {
    pub host: String,
    pub port: u16,
    pub java_runtime_url: String,
    pub webview_enabled: bool,
    pub aidoku_index_url: String,
    pub aidoku_enabled: bool,
    pub aidoku_cache_path: String,
    pub db_path: String,
    pub migrate_path: Option<String>,
    pub tracker_remote_search: bool,
    pub tracker_search_ttl_seconds: i64,
    pub downloads_path: String,
    pub local_manga_path: String,
    pub local_anime_path: String,
}

impl Config {
    /// The listen address as `host:port`.
    pub fn addr(&self) -> (r: String)
        ensures
            r@ == self.host@ + seq![':'] + dec_str(self.port as int),
    {
        let mut r = self.host.clone();
        r.append(":");
        proof {
            reveal_strlit(":");
            assert(":"@ =~= seq![':']);
        }
        append_dec(&mut r, self.port);
        r
    }
}

/// How a boolean setting reads: the usual spellings of true and false,
/// compared ignoring ASCII case; anything else is unrecognized.
pub open spec fn bool_setting(v: Seq<char>) -> Option<bool> {
    if eq_fold(v, "1"@) || eq_fold(v, "true"@) || eq_fold(v, "yes"@) || eq_fold(v, "on"@) {
        Some(true)
    } else if eq_fold(v, "0"@) || eq_fold(v, "false"@) || eq_fold(v, "no"@) || eq_fold(v, "off"@) {
        Some(false)
    } else {
        None
    }
}

/// Reads a boolean setting's raw text: `1`, `true`, `yes` and `on` enable,
/// `0`, `false`, `no` and `off` disable, in any ASCII case; anything else is
/// unrecognized and the caller keeps its default.
pub fn parse_bool_setting(value: &str) -> (r: Option<bool>)
    ensures
        r == bool_setting(value@),
{
    if eq_ignore_ascii_case(value, "1") || eq_ignore_ascii_case(value, "true")
        || eq_ignore_ascii_case(value, "yes") || eq_ignore_ascii_case(value, "on") {
        Some(true)
    } else if eq_ignore_ascii_case(value, "0") || eq_ignore_ascii_case(value, "false")
        || eq_ignore_ascii_case(value, "no") || eq_ignore_ascii_case(value, "off") {
        Some(false)
    } else {
        None
    }
}

/// The backend port used when none is configured: one above the listen
/// port, saturating at the top of the range. An externally supplied backend
/// port is authoritative and never derived.
pub fn default_backend_port(listen_port: u16) -> (p: u16)
    ensures
        p == if listen_port == u16::MAX {
            u16::MAX as int
        } else {
            listen_port + 1
        },
{
    listen_port.saturating_add(1)
}

/// The backend's base URL, `http://host:port`.
pub fn backend_base_url(host: &str, port: u16) -> (r: String)
    ensures
        r@ == "http://"@ + host@ + seq![':'] + dec_str(port as int),
{
    let mut r = String::from_str("http://");
    r.append(host);
    r.append(":");
    proof {
        reveal_strlit(":");
        assert(":"@ =~= seq![':']);
    }
    append_dec(&mut r, port);
    r
}

} // verus!
