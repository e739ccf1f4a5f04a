//! The backend's lifecycle from the proxy's side: a validated startup
//! record, and an exclusively owned handle whose single stop call can never
//! be issued twice nor for a backend that never started.

use vstd::prelude::*;

use crate::config::Config;
use crate::text::contains_nul;
use crate::Error;

verus! {

/// The startup record handed to the backend's entry point: the backend
/// address, feature toggles, a cache TTL and the filesystem paths, every
/// string checked to be free of embedded NUL terminators so it can be
/// passed on as a C string without truncation.
#[derive(Debug)]
pub struct ManatanServerConfig {
    pub host: String,
    pub port: u16,
    pub java_runtime_url: String,
    pub webview_enabled: bool,
    pub aidoku_index_url: String,
    pub aidoku_enabled: bool,
    pub aidoku_cache_path: String,
    pub db_path: String,
    pub migrate_path: Option<String>,
    pub tracker_remote_search: bool,
    pub tracker_search_ttl_seconds: i64,
    pub downloads_path: String,
    pub local_manga_path: String,
    pub local_anime_path: String,
}

/// The view of an optional string.
pub open spec fn option_view(v: Option<String>) -> Option<Seq<char>> {
    match v {
        Some(s) => Some(s@),
        None => None,
    }
}

/// The migrate path handed to the backend: only a non-empty setting counts.
pub open spec fn effective_migrate(v: Option<String>) -> Option<Seq<char>> {
    match v {
        Some(s) => if s@.len() > 0 {
            Some(s@)
        } else {
            None
        },
        None => None,
    }
}

/// The label of the first startup field that holds an embedded NUL
/// terminator, in the order the fields are checked; `None` when every field
/// is clean. The migrate path is only checked when it is set and non-empty.
pub open spec fn first_nul_field(config: Config, backend_host: Seq<char>) -> Option<Seq<char>> {
    if backend_host.contains('\0') {
        Some("backend_host"@)
    } else if config.java_runtime_url@.contains('\0') {
        Some("java_runtime_url"@)
    } else if config.aidoku_index_url@.contains('\0') {
        Some("aidoku_index_url"@)
    } else if config.aidoku_cache_path@.contains('\0') {
        Some("aidoku_cache_path"@)
    } else if config.db_path@.contains('\0') {
        Some("db_path"@)
    } else if config.downloads_path@.contains('\0') {
        Some("downloads_path"@)
    } else if config.local_manga_path@.contains('\0') {
        Some("local_manga_path"@)
    } else if config.local_anime_path@.contains('\0') {
        Some("local_anime_path"@)
    } else if effective_migrate(config.migrate_path) matches Some(m) && m.contains('\0') {
        Some("migrate_path"@)
    } else {
        None
    }
}

/// A configuration error for `label`, worded as the startup path reports it.
fn nul_error(label: &str) -> (e: Error)
    ensures
        e@ == label@ + " contains NUL bytes"@,
{
    let msg = String::from_str(label).concat(" contains NUL bytes");
    Error::new(msg)
}

impl ManatanServerConfig {
    /// Builds the backend's startup record from the proxy configuration and
    /// the resolved backend address.
    ///
    /// Every string field is validated before any of it is handed on: a
    /// field with an embedded NUL terminator is a configuration error,
    /// reported immediately under the first offending field's label, never
    /// silently truncated. On success each field is carried over verbatim,
    /// with the configured migrate path kept only when non-empty.
    pub fn from_config(config: &Config, backend_host: &str, backend_port: u16) -> (r: Result<
        ManatanServerConfig,
        Error,
    >)
        ensures
            match r {
                Ok(c) => {
                    &&& first_nul_field(*config, backend_host@) is None
                    &&& c.host@ == backend_host@
                    &&& c.port == backend_port
                    &&& c.java_runtime_url@ == config.java_runtime_url@
                    &&& c.webview_enabled == config.webview_enabled
                    &&& c.aidoku_index_url@ == config.aidoku_index_url@
                    &&& c.aidoku_enabled == config.aidoku_enabled
                    &&& c.aidoku_cache_path@ == config.aidoku_cache_path@
                    &&& c.db_path@ == config.db_path@
                    &&& option_view(c.migrate_path) == effective_migrate(config.migrate_path)
                    &&& c.tracker_remote_search == config.tracker_remote_search
                    &&& c.tracker_search_ttl_seconds == config.tracker_search_ttl_seconds
                    &&& c.downloads_path@ == config.downloads_path@
                    &&& c.local_manga_path@ == config.local_manga_path@
                    &&& c.local_anime_path@ == config.local_anime_path@
                },
                Err(e) => (first_nul_field(*config, backend_host@) matches Some(label) && e@
                    == label + " contains NUL bytes"@),
            },
    {
        if contains_nul(backend_host) {
            return Err(nul_error("backend_host"));
        }
        if contains_nul(config.java_runtime_url.as_str()) {
            return Err(nul_error("java_runtime_url"));
        }
        if contains_nul(config.aidoku_index_url.as_str()) {
            return Err(nul_error("aidoku_index_url"));
        }
        if contains_nul(config.aidoku_cache_path.as_str()) {
            return Err(nul_error("aidoku_cache_path"));
        }
        if contains_nul(config.db_path.as_str()) {
            return Err(nul_error("db_path"));
        }
        if contains_nul(config.downloads_path.as_str()) {
            return Err(nul_error("downloads_path"));
        }
        if contains_nul(config.local_manga_path.as_str()) {
            return Err(nul_error("local_manga_path"));
        }
        if contains_nul(config.local_anime_path.as_str()) {
            return Err(nul_error("local_anime_path"));
        }
        let migrate_path: Option<String> = match &config.migrate_path {
            Some(v) => if v.as_str().unicode_len() > 0 {
                if contains_nul(v.as_str()) {
                    return Err(nul_error("migrate_path"));
                }
                Some(v.clone())
            } else {
                None
            },
            None => None,
        };
        Ok(
            ManatanServerConfig {
                host: String::from_str(backend_host),
                port: backend_port,
                java_runtime_url: config.java_runtime_url.clone(),
                webview_enabled: config.webview_enabled,
                aidoku_index_url: config.aidoku_index_url.clone(),
                aidoku_enabled: config.aidoku_enabled,
                aidoku_cache_path: config.aidoku_cache_path.clone(),
                db_path: config.db_path.clone(),
                migrate_path,
                tracker_remote_search: config.tracker_remote_search,
                tracker_search_ttl_seconds: config.tracker_search_ttl_seconds,
                downloads_path: config.downloads_path.clone(),
                local_manga_path: config.local_manga_path.clone(),
                local_anime_path: config.local_anime_path.clone(),
            },
        )
    }
}

/// The proxy's exclusively owned reference to the started backend.
///
/// The backend itself is opaque; the proxy holds only the non-null raw
/// identifier its start call reported, and owes it exactly one stop call.
#[derive(Debug)]
pub struct ManatanServerHandle {
    raw: usize,
    live: bool,
}

impl ManatanServerHandle {
    /// The raw identifier the backend's start call reported.
    pub closed spec fn raw_id(self) -> usize {
        self.raw
    }

    /// Whether this handle still owns a running backend, whose single stop
    /// call is still owed.
    pub closed spec fn is_live(self) -> bool {
        self.live
    }

    /// A live handle holds a non-null identifier.
    pub open spec fn wf(self) -> bool {
        self.is_live() ==> self.raw_id() != 0
    }

    /// Adopts the backend's startup result: a null (zero) identifier means
    /// the backend failed to start and is a startup error; anything else
    /// becomes the one live handle for this backend.
    pub fn new(raw: usize) -> (r: Result<ManatanServerHandle, Error>)
        ensures
            match r {
                Ok(h) => raw != 0 && h.wf() && h.is_live() && h.raw_id() == raw,
                Err(e) => raw == 0 && e@ == "manatan_server_start failed"@,
            },
    {
        if raw == 0 {
            Err(Error::new(String::from_str("manatan_server_start failed")))
        } else {
            Ok(ManatanServerHandle { raw, live: true })
        }
    }

    /// A handle that owns nothing: the state of a backend that was never
    /// successfully started. Stopping it is not observable.
    pub fn absent() -> (h: ManatanServerHandle)
        ensures
            h.wf(),
            !h.is_live(),
    {
        ManatanServerHandle { raw: 0, live: false }
    }

    /// Claims the single stop call. On a live handle the first call yields
    /// the raw identifier — the caller must now stop the backend — and the
    /// handle ceases to be live; on a handle that is not live (never
    /// started, or already claimed) nothing is yielded. So the stop can
    /// neither be invoked twice nor be invoked for a backend that never
    /// started, whichever order teardown paths run in.
    pub fn take_for_stop(&mut self) -> (r: Option<usize>)
        requires
            old(self).wf(),
        ensures
            final(self).wf(),
            !final(self).is_live(),
            final(self).raw_id() == old(self).raw_id(),
            r == if old(self).is_live() {
                Some(old(self).raw_id())
            } else {
                None::<usize>
            },
    {
        if self.live {
            self.live = false;
            Some(self.raw)
        } else {
            None
        }
    }
}

} // verus!
