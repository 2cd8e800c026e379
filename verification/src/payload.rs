//! Notification payload model and sanitization.
//!
//! A payload and its sub-objects are created fresh for each reporting
//! attempt and discarded after transport.  Text that only passes through
//! (messages, symbols, file names) is held as plain strings; the maps of
//! request data are held as ordered association lists, and the four maps
//! that may carry secrets are sanitized before transport.

use vstd::prelude::*;

use crate::config::filter_key_spec;
use crate::config::Config;
use crate::config::RequestConfig;
use crate::config::RequestConfigV;
use crate::strutil::opt_str_view;

verus! {

/// Static identity of this client library.
#[derive(Debug)]
pub struct NotifierInfo {
    pub name: String,
    pub url: String,
    pub version: String,
    pub language: String,
}

/// The mathematical value of the notifier identity.
pub struct NotifierInfoV {
    pub name: Seq<char>,
    pub url: Seq<char>,
    pub version: Seq<char>,
    pub language: Seq<char>,
}

impl View for NotifierInfo {
    type V = NotifierInfoV;

    open spec fn view(&self) -> NotifierInfoV {
        NotifierInfoV {
            name: self.name@,
            url: self.url@,
            version: self.version@,
            language: self.language@,
        }
    }
}

/// One stack frame after trimming and decoration.  The method is always
/// present; line number, file and source window are best effort.  The
/// source window maps 1-based absolute line numbers to source text.
#[derive(Debug)]
pub struct BacktraceEntry {
    pub number: Option<String>,
    pub file: Option<String>,
    pub method: String,
    pub source: Option<Vec<(u32, String)>>,
}

/// The mathematical value of a decorated stack frame.
pub struct BacktraceEntryV {
    pub number: Option<Seq<char>>,
    pub file: Option<Seq<char>>,
    pub method: Seq<char>,
    pub source: Option<Seq<(u32, Seq<char>)>>,
}

/// The mathematical value of a source-window vector.
pub open spec fn source_view(v: Seq<(u32, String)>) -> Seq<(u32, Seq<char>)> {
    v.map_values(|p: (u32, String)| (p.0, p.1@))
}

impl View for BacktraceEntry {
    type V = BacktraceEntryV;

    open spec fn view(&self) -> BacktraceEntryV {
        BacktraceEntryV {
            number: opt_str_view(self.number),
            file: opt_str_view(self.file),
            method: self.method@,
            source: match self.source {
                Some(v) => Some(source_view(v@)),
                None => None,
            },
        }
    }
}

/// The mathematical value of a frame vector.
pub open spec fn entries_view(v: Seq<BacktraceEntry>) -> Seq<BacktraceEntryV> {
    v.map_values(|e: BacktraceEntry| e@)
}

/// One link of an error's caused-by chain.
#[derive(Debug)]
pub struct ErrorCause {
    pub class: String,
    pub message: String,
    pub backtrace: Option<Vec<BacktraceEntry>>,
}

/// The mathematical value of a cause link.
pub struct ErrorCauseV {
    pub class: Seq<char>,
    pub message: Seq<char>,
    pub backtrace: Option<Seq<BacktraceEntryV>>,
}

impl View for ErrorCause {
    type V = ErrorCauseV;

    open spec fn view(&self) -> ErrorCauseV {
        ErrorCauseV {
            class: self.class@,
            message: self.message@,
            backtrace: match self.backtrace {
                Some(v) => Some(entries_view(v@)),
                None => None,
            },
        }
    }
}

/// The mathematical value of a cause chain.
pub open spec fn causes_view(v: Seq<ErrorCause>) -> Seq<ErrorCauseV> {
    v.map_values(|c: ErrorCause| c@)
}

/// The error being reported: correlation token, class, message, optional
/// backtrace and the ordered caused-by chain.
#[derive(Debug)]
pub struct ErrorInfo {
    pub token: Option<String>,
    pub class: String,
    pub message: String,
    pub tags: Vec<String>,
    pub fingerprint: String,
    pub backtrace: Option<Vec<BacktraceEntry>>,
    pub causes: Vec<ErrorCause>,
}

/// The mathematical value of the error information.
pub struct ErrorInfoV {
    pub token: Option<Seq<char>>,
    pub class: Seq<char>,
    pub message: Seq<char>,
    pub tags: Seq<Seq<char>>,
    pub fingerprint: Seq<char>,
    pub backtrace: Option<Seq<BacktraceEntryV>>,
    pub causes: Seq<ErrorCauseV>,
}

impl View for ErrorInfo {
    type V = ErrorInfoV;

    open spec fn view(&self) -> ErrorInfoV {
        ErrorInfoV {
            token: opt_str_view(self.token),
            class: self.class@,
            message: self.message@,
            tags: self.tags.deep_view(),
            fingerprint: self.fingerprint@,
            backtrace: match self.backtrace {
                Some(v) => Some(entries_view(v@)),
                None => None,
            },
            causes: causes_view(self.causes@),
        }
    }
}

/// The mathematical value of an association-list map.
pub open spec fn map_view(v: Seq<(String, String)>) -> Seq<(Seq<char>, Seq<char>)> {
    v.map_values(|p: (String, String)| (p.0@, p.1@))
}

/// Ambient request metadata, populated by the host integration.  The maps
/// are ordered association lists; the `context` and `local_variables`
/// values hold already-rendered text.
#[derive(Debug)]
pub struct RequestInfo {
    pub url: String,
    pub cgi_data: Vec<(String, String)>,
    pub params: Vec<(String, String)>,
    pub component: String,
    pub action: String,
    pub session: Vec<(String, String)>,
    pub context: Vec<(String, String)>,
    pub local_variables: Vec<(String, String)>,
}

/// The mathematical value of the request metadata.
pub struct RequestInfoV {
    pub url: Seq<char>,
    pub cgi_data: Seq<(Seq<char>, Seq<char>)>,
    pub params: Seq<(Seq<char>, Seq<char>)>,
    pub component: Seq<char>,
    pub action: Seq<char>,
    pub session: Seq<(Seq<char>, Seq<char>)>,
    pub context: Seq<(Seq<char>, Seq<char>)>,
    pub local_variables: Seq<(Seq<char>, Seq<char>)>,
}

impl View for RequestInfo {
    type V = RequestInfoV;

    open spec fn view(&self) -> RequestInfoV {
        RequestInfoV {
            url: self.url@,
            cgi_data: map_view(self.cgi_data@),
            params: map_view(self.params@),
            component: self.component@,
            action: self.action@,
            session: map_view(self.session@),
            context: map_view(self.context@),
            local_variables: map_view(self.local_variables@),
        }
    }
}

fn clone_pairs(v: &Vec<(String, String)>) -> (r: Vec<(String, String)>)
    ensures
        map_view(r@) == map_view(v@),
{
    let mut r: Vec<(String, String)> = Vec::new();
    let mut i: usize = 0;
    while i < v.len()
        invariant
            0 <= i <= v@.len(),
            r@.len() == i,
            forall|k: int| 0 <= k < i ==> (r@[k].0@, r@[k].1@) == (v@[k].0@, v@[k].1@),
        decreases v@.len() - i,
    {
        r.push((v[i].0.clone(), v[i].1.clone()));
        i = i + 1;
    }
    proof {
        assert forall|k: int| 0 <= k < v@.len() implies map_view(r@)[k] == map_view(v@)[k] by {
            assert(map_view(r@)[k] == (r@[k].0@, r@[k].1@));
        }
        assert(map_view(r@) =~= map_view(v@));
    }
    r
}

impl Clone for RequestInfo {
    fn clone(&self) -> (c: RequestInfo)
        ensures
            c@ == self@,
    {
        RequestInfo {
            url: self.url.clone(),
            cgi_data: clone_pairs(&self.cgi_data),
            params: clone_pairs(&self.params),
            component: self.component.clone(),
            action: self.action.clone(),
            session: clone_pairs(&self.session),
            context: clone_pairs(&self.context),
            local_variables: clone_pairs(&self.local_variables),
        }
    }
}

/// The mathematical value of an optional request-metadata value.
pub open spec fn opt_request_view(o: Option<RequestInfo>) -> Option<RequestInfoV> {
    match o {
        Some(r) => Some(r@),
        None => None,
    }
}

impl RequestInfo {
    /// Request metadata with every field empty.
    pub fn empty() -> (r: RequestInfo)
        ensures
            r@.url.len() == 0,
            r@.cgi_data.len() == 0,
            r@.params.len() == 0,
            r@.component.len() == 0,
            r@.action.len() == 0,
            r@.session.len() == 0,
            r@.context.len() == 0,
            r@.local_variables.len() == 0,
    {
        RequestInfo {
            url: String::new(),
            cgi_data: Vec::new(),
            params: Vec::new(),
            component: String::new(),
            action: String::new(),
            session: Vec::new(),
            context: Vec::new(),
            local_variables: Vec::new(),
        }
    }
}

/// Best-effort memory readings, in kilobytes.
#[derive(Debug)]
pub struct MemoryInfo {
    pub total: Option<u64>,
    pub free: Option<u64>,
    pub buffers: Option<u64>,
    pub cached: Option<u64>,
    pub free_total: Option<u64>,
}

/// Best-effort load averages, as the probe's text tokens.
#[derive(Debug)]
pub struct LoadInfo {
    pub one: Option<String>,
    pub five: Option<String>,
    pub fifteen: Option<String>,
}

/// Best-effort memory and load readings; purely informational.
#[derive(Debug)]
pub struct Stats {
    pub mem: Option<MemoryInfo>,
    pub load: Option<LoadInfo>,
}

/// The mathematical value of the load averages.
pub struct LoadInfoV {
    pub one: Option<Seq<char>>,
    pub five: Option<Seq<char>>,
    pub fifteen: Option<Seq<char>>,
}

impl View for LoadInfo {
    type V = LoadInfoV;

    open spec fn view(&self) -> LoadInfoV {
        LoadInfoV {
            one: opt_str_view(self.one),
            five: opt_str_view(self.five),
            fifteen: opt_str_view(self.fifteen),
        }
    }
}

/// The mathematical value of the probe readings.
pub struct StatsV {
    pub mem: Option<MemoryInfo>,
    pub load: Option<LoadInfoV>,
}

impl View for Stats {
    type V = StatsV;

    open spec fn view(&self) -> StatsV {
        StatsV {
            mem: self.mem,
            load: match self.load {
                Some(l) => Some(l@),
                None => None,
            },
        }
    }
}

/// Server-side facts generated fresh per report from the live
/// configuration and the stats probe.
#[derive(Debug)]
pub struct ServerInfo {
    pub project_root: Option<String>,
    pub revision: Option<String>,
    pub environment_name: Option<String>,
    pub hostname: Option<String>,
    pub stats: Stats,
    pub time: String,
    pub pid: u32,
}

/// The mathematical value of the server information.
pub struct ServerInfoV {
    pub project_root: Option<Seq<char>>,
    pub revision: Option<Seq<char>>,
    pub environment_name: Option<Seq<char>>,
    pub hostname: Option<Seq<char>>,
    pub stats: StatsV,
    pub time: Seq<char>,
    pub pid: u32,
}

impl View for ServerInfo {
    type V = ServerInfoV;

    open spec fn view(&self) -> ServerInfoV {
        ServerInfoV {
            project_root: opt_str_view(self.project_root),
            revision: opt_str_view(self.revision),
            environment_name: opt_str_view(self.environment_name),
            hostname: opt_str_view(self.hostname),
            stats: self.stats@,
            time: self.time@,
            pid: self.pid,
        }
    }
}

impl ServerInfo {
    /// Builds the server information for one report from a configuration
    /// snapshot, the probe readings, the current time text and the process
    /// id.
    pub fn generate(config: &Config, stats: Stats, time: String, pid: u32) -> (r: ServerInfo)
        ensures
            r@.project_root == config@.root,
            r@.revision == config@.revision,
            r@.environment_name == config@.env,
            r@.hostname == config@.hostname,
            r@.stats == stats@,
            r@.time == time@,
            r@.pid == pid,
    {
        let c = config.clone();
        ServerInfo {
            project_root: c.root,
            revision: c.revision,
            environment_name: c.env,
            hostname: c.hostname,
            stats,
            time,
            pid,
        }
    }
}

/// The root object sent once per error.
#[derive(Debug)]
pub struct Payload {
    pub api_key: String,
    pub notifier: Option<NotifierInfo>,
    pub error: ErrorInfo,
    pub request: Option<RequestInfo>,
    pub server: ServerInfo,
}

/// The mathematical value of a payload.
pub struct PayloadV {
    pub api_key: Seq<char>,
    pub notifier: Option<NotifierInfoV>,
    pub error: ErrorInfoV,
    pub request: Option<RequestInfoV>,
    pub server: ServerInfoV,
}

impl View for Payload {
    type V = PayloadV;

    open spec fn view(&self) -> PayloadV {
        PayloadV {
            api_key: self.api_key@,
            notifier: match self.notifier {
                Some(n) => Some(n@),
                None => None,
            },
            error: self.error@,
            request: match self.request {
                Some(r) => Some(r@),
                None => None,
            },
            server: self.server@,
        }
    }
}

/// The fixed text that replaces a redacted value.
pub open spec fn redaction_marker() -> Seq<char> {
    "[FILTERED]"@
}

/// A map with the value of every filtered key replaced by the redaction
/// marker; keys, order and unfiltered values are untouched.
pub open spec fn sanitize_map_spec(rc: RequestConfigV, m: Seq<(Seq<char>, Seq<char>)>) -> Seq<
    (Seq<char>, Seq<char>),
> {
    m.map_values(
        |p: (Seq<char>, Seq<char>)|
            if filter_key_spec(rc, p.0) {
                (p.0, redaction_marker())
            } else {
                p
            },
    )
}

/// Sanitization of a map replaces exactly the values of filtered keys with
/// the redaction marker and leaves every other entry untouched, preserving
/// keys and order throughout.
pub proof fn lemma_sanitize_map(rc: RequestConfigV, m: Seq<(Seq<char>, Seq<char>)>, i: int)
    requires
        0 <= i < m.len(),
    ensures
        sanitize_map_spec(rc, m).len() == m.len(),
        sanitize_map_spec(rc, m)[i].0 == m[i].0,
        filter_key_spec(rc, m[i].0) ==> sanitize_map_spec(rc, m)[i].1 == redaction_marker(),
        !filter_key_spec(rc, m[i].0) ==> sanitize_map_spec(rc, m)[i] == m[i],
{
}

fn sanitize_map(rc: &RequestConfig, m: &mut Vec<(String, String)>)
    ensures
        map_view(final(m)@) == sanitize_map_spec(rc@, map_view(old(m)@)),
{
    let ghost orig: Seq<(Seq<char>, Seq<char>)> = map_view(m@);
    let mut out: Vec<(String, String)> = Vec::new();
    let mut i: usize = 0;
    while i < m.len()
        invariant
            orig == map_view(m@),
            0 <= i <= m@.len(),
            out@.len() == i,
            forall|k: int|
                0 <= k < i ==> (out@[k].0@, out@[k].1@) == sanitize_map_spec(rc@, orig)[k],
        decreases m@.len() - i,
    {
        let key = m[i].0.clone();
        if rc.filter_key(key.as_str()) {
            out.push((key, String::from_str("[FILTERED]")));
        } else {
            let value = m[i].1.clone();
            out.push((key, value));
        }
        i = i + 1;
    }
    *m = out;
    proof {
        assert forall|k: int| 0 <= k < orig.len() implies map_view(final(m)@)[k]
            == sanitize_map_spec(rc@, orig)[k] by {
            assert(map_view(final(m)@)[k] == (final(m)@[k].0@, final(m)@[k].1@));
        }
        assert(map_view(final(m)@) =~= sanitize_map_spec(rc@, orig));
    }
}

/// The request metadata with its `cgi_data`, `params`, `session` and
/// `context` maps sanitized.
pub open spec fn sanitize_request_spec(rc: RequestConfigV, r: RequestInfoV) -> RequestInfoV {
    RequestInfoV {
        url: r.url,
        cgi_data: sanitize_map_spec(rc, r.cgi_data),
        params: sanitize_map_spec(rc, r.params),
        component: r.component,
        action: r.action,
        session: sanitize_map_spec(rc, r.session),
        context: sanitize_map_spec(rc, r.context),
        local_variables: r.local_variables,
    }
}

impl RequestInfo {
    /// Replaces the value of every filtered key in the `cgi_data`,
    /// `params`, `session` and `context` maps with the redaction marker.
    pub fn sanitize(&mut self, rc: &RequestConfig)
        ensures
            final(self)@ == sanitize_request_spec(rc@, old(self)@),
    {
        sanitize_map(rc, &mut self.cgi_data);
        sanitize_map(rc, &mut self.params);
        sanitize_map(rc, &mut self.session);
        sanitize_map(rc, &mut self.context);
    }
}

/// The payload with its request metadata sanitized; a payload without
/// request metadata is unchanged.
pub open spec fn sanitize_payload_spec(rc: RequestConfigV, p: PayloadV) -> PayloadV {
    PayloadV {
        api_key: p.api_key,
        notifier: p.notifier,
        error: p.error,
        request: match p.request {
            Some(r) => Some(sanitize_request_spec(rc, r)),
            None => None,
        },
        server: p.server,
    }
}

impl Payload {
    /// Sanitizes the request metadata carried by the payload, if any.
    pub fn sanitize(&mut self, rc: &RequestConfig)
        ensures
            final(self)@ == sanitize_payload_spec(rc@, old(self)@),
    {
        match &mut self.request {
            Some(r) => {
                r.sanitize(rc);
            },
            None => {},
        }
    }
}

} // verus!
