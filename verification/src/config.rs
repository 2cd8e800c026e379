//! Configuration model and the transactional configuration store.
//!
//! The store keeps two full copies of the configuration: the committed
//! value that readers see, and a working copy for updates in progress.  An
//! update is computed on a draft and published with a single `commit`; an
//! update abandoned partway (for instance because the caller's mutator
//! panicked) is undone with `rollback`, which restores the working copy
//! from the committed value, so readers never observe a mixture of old and
//! new fields.

use vstd::prelude::*;

use crate::strutil::contains_spec;
use crate::strutil::contains_str;
use crate::strutil::eq_ignore_case;
use crate::strutil::eq_ignore_case_spec;
use crate::strutil::opt_str_view;
use crate::strutil::parse_u16;
use crate::strutil::split_char;
use crate::strutil::split_char_spec;
use crate::strutil::trim_spec;
use crate::strutil::trim_str;
use crate::strutil::u16_digits_spec;

verus! {

/// The mathematical value of the connection options.
pub struct ConnectionConfigV {
    pub secure: Option<bool>,
    pub host: Option<Seq<char>>,
    pub port: Option<u16>,
}

/// The mathematical value of the request-filtering options.
pub struct RequestConfigV {
    pub filter_keys: Option<Seq<Seq<char>>>,
}

/// The mathematical value of a configuration.
pub struct ConfigV {
    pub api_key: Option<Seq<char>>,
    pub env: Option<Seq<char>>,
    pub report_data: Option<bool>,
    pub root: Option<Seq<char>>,
    pub revision: Option<Seq<char>>,
    pub hostname: Option<Seq<char>>,
    pub connection: ConnectionConfigV,
    pub request: RequestConfigV,
}

/// HTTP connection options.
#[derive(Debug, PartialEq)]
pub struct ConnectionConfig {
    /// Whether to use TLS when sending data.  Defaults to `true`.
    pub secure: Option<bool>,
    /// The host to use when sending data.
    pub host: Option<String>,
    /// The port to use when sending data.  Defaults to 443.
    pub port: Option<u16>,
}

/// Request data filtering options.
#[derive(Debug, PartialEq)]
pub struct RequestConfig {
    /// Keys whose values are redacted when request data is sent.
    /// Defaults to `["password", "HTTP_AUTHORIZATION"]`.
    pub filter_keys: Option<Vec<String>>,
}

/// Notifier configuration.  Every field is optional; `None` means unset,
/// with the documented default applied where one exists.
#[derive(Debug, PartialEq)]
pub struct Config {
    /// The API key of the project reported to.
    pub api_key: Option<String>,
    /// The environment the app is running in, e.g. `"production"`.
    pub env: Option<String>,
    /// Enables or disables reporting of data.  Defaults to `false` for the
    /// `"test"`, `"development"` and `"cucumber"` environments.
    pub report_data: Option<bool>,
    /// The project's absolute root path.
    pub root: Option<String>,
    /// The project's revision.
    pub revision: Option<String>,
    /// The hostname of the current box.
    pub hostname: Option<String>,
    /// HTTP connection options.
    pub connection: ConnectionConfig,
    /// Request data filtering options.
    pub request: RequestConfig,
}

impl View for ConnectionConfig {
    type V = ConnectionConfigV;

    open spec fn view(&self) -> ConnectionConfigV {
        ConnectionConfigV {
            secure: self.secure,
            host: opt_str_view(self.host),
            port: self.port,
        }
    }
}

impl View for RequestConfig {
    type V = RequestConfigV;

    open spec fn view(&self) -> RequestConfigV {
        RequestConfigV {
            filter_keys: match self.filter_keys {
                Some(ks) => Some(ks.deep_view()),
                None => None,
            },
        }
    }
}

impl View for Config {
    type V = ConfigV;

    open spec fn view(&self) -> ConfigV {
        ConfigV {
            api_key: opt_str_view(self.api_key),
            env: opt_str_view(self.env),
            report_data: self.report_data,
            root: opt_str_view(self.root),
            revision: opt_str_view(self.revision),
            hostname: opt_str_view(self.hostname),
            connection: self.connection@,
            request: self.request@,
        }
    }
}

/// The all-unset connection options.
pub open spec fn default_connection_view() -> ConnectionConfigV {
    ConnectionConfigV { secure: None, host: None, port: None }
}

/// The all-unset request-filtering options.
pub open spec fn default_request_view() -> RequestConfigV {
    RequestConfigV { filter_keys: None }
}

/// The all-unset configuration.
pub open spec fn default_config_view() -> ConfigV {
    ConfigV {
        api_key: None,
        env: None,
        report_data: None,
        root: None,
        revision: None,
        hostname: None,
        connection: default_connection_view(),
        request: default_request_view(),
    }
}

impl Default for ConnectionConfig {
    fn default() -> (c: ConnectionConfig)
        ensures
            c@ == default_connection_view(),
    {
        ConnectionConfig { secure: None, host: None, port: None }
    }
}

impl Default for RequestConfig {
    fn default() -> (c: RequestConfig)
        ensures
            c@ == default_request_view(),
    {
        RequestConfig { filter_keys: None }
    }
}

impl Default for Config {
    fn default() -> (c: Config)
        ensures
            c@ == default_config_view(),
    {
        Config {
            api_key: None,
            env: None,
            report_data: None,
            root: None,
            revision: None,
            hostname: None,
            connection: ConnectionConfig { secure: None, host: None, port: None },
            request: RequestConfig { filter_keys: None },
        }
    }
}

fn clone_opt_string(o: &Option<String>) -> (r: Option<String>)
    ensures
        opt_str_view(r) == opt_str_view(*o),
{
    match o {
        Some(s) => Some(s.clone()),
        None => None,
    }
}

fn clone_string_vec(v: &Vec<String>) -> (r: Vec<String>)
    ensures
        r.deep_view() == v.deep_view(),
{
    let mut r: Vec<String> = Vec::new();
    let mut i: usize = 0;
    while i < v.len()
        invariant
            0 <= i <= v.len(),
            r@.len() == i,
            forall|k: int| 0 <= k < i ==> r@[k]@ == v@[k]@,
        decreases v.len() - i,
    {
        r.push(v[i].clone());
        i = i + 1;
    }
    proof {
        assert forall|k: int| 0 <= k < v@.len() implies r.deep_view()[k] == v.deep_view()[k] by {
            assert(r.deep_view()[k] == r@[k]@);
            assert(v.deep_view()[k] == v@[k]@);
        }
        assert(r.deep_view() =~= v.deep_view());
    }
    r
}

impl Clone for ConnectionConfig {
    fn clone(&self) -> (c: ConnectionConfig)
        ensures
            c@ == self@,
    {
        ConnectionConfig {
            secure: self.secure,
            host: clone_opt_string(&self.host),
            port: self.port,
        }
    }
}

impl Clone for RequestConfig {
    fn clone(&self) -> (c: RequestConfig)
        ensures
            c@ == self@,
    {
        RequestConfig {
            filter_keys: match &self.filter_keys {
                Some(ks) => Some(clone_string_vec(ks)),
                None => None,
            },
        }
    }
}

impl Clone for Config {
    fn clone(&self) -> (c: Config)
        ensures
            c@ == self@,
    {
        Config {
            api_key: clone_opt_string(&self.api_key),
            env: clone_opt_string(&self.env),
            report_data: self.report_data,
            root: clone_opt_string(&self.root),
            revision: clone_opt_string(&self.revision),
            hostname: clone_opt_string(&self.hostname),
            connection: self.connection.clone(),
            request: self.request.clone(),
        }
    }
}

/// The filter keys applied when none are configured.
pub open spec fn default_filter_keys() -> Seq<Seq<char>> {
    seq!["password"@, "HTTP_AUTHORIZATION"@]
}

/// The filter keys in effect: the configured list, or the default one.
pub open spec fn effective_filter_keys(rc: RequestConfigV) -> Seq<Seq<char>> {
    match rc.filter_keys {
        Some(ks) => ks,
        None => default_filter_keys(),
    }
}

/// A key is filtered when it contains one of the effective filter keys as
/// a substring.
pub open spec fn filter_key_spec(rc: RequestConfigV, key: Seq<char>) -> bool {
    exists|i: int|
        0 <= i < effective_filter_keys(rc).len() && contains_spec(
            key,
            effective_filter_keys(rc)[i],
        )
}

impl RequestConfig {
    /// Returns `true` if the key likely contains secrets and should be
    /// redacted before a report is sent.
    pub fn filter_key(&self, key: &str) -> (r: bool)
        ensures
            r == filter_key_spec(self@, key@),
    {
        match &self.filter_keys {
            Some(ks) => {
                let mut i: usize = 0;
                while i < ks.len()
                    invariant
                        0 <= i <= ks.len(),
                        ks.deep_view() == effective_filter_keys(self@),
                        forall|j: int| 0 <= j < i ==> !contains_spec(key@, ks.deep_view()[j]),
                    decreases ks.len() - i,
                {
                    if contains_str(key, ks[i].as_str()) {
                        proof {
                            assert(ks.deep_view()[i as int] == ks@[i as int]@);
                            assert(0 <= i < effective_filter_keys(self@).len() && contains_spec(
                                key@,
                                effective_filter_keys(self@)[i as int],
                            ));
                        }
                        return true;
                    }
                    proof {
                        assert(ks.deep_view()[i as int] == ks@[i as int]@);
                    }
                    i = i + 1;
                }
                false
            },
            None => {
                let r = contains_str(key, "password") || contains_str(key, "HTTP_AUTHORIZATION");
                proof {
                    assert(effective_filter_keys(self@)[0] == "password"@);
                    assert(effective_filter_keys(self@)[1] == "HTTP_AUTHORIZATION"@);
                }
                r
            },
        }
    }
}

/// A read-only, consistent snapshot of the configuration, as handed out to
/// readers.
#[derive(Debug)]
pub struct ConfigReadGuard {
    config: Config,
}

impl View for ConfigReadGuard {
    type V = ConfigV;

    closed spec fn view(&self) -> ConfigV {
        self.config@
    }
}

impl ConfigReadGuard {
    /// The configuration held by the snapshot.
    pub fn config(&self) -> (c: &Config)
        ensures
            c@ == self@,
    {
        &self.config
    }
}

/// The committed configuration after an update attempt: the whole draft
/// when the update completed, and exactly the previous value when it was
/// abandoned.
pub open spec fn committed_after(outcome: Option<ConfigV>, pre: ConfigV) -> ConfigV {
    match outcome {
        Some(draft) => draft,
        None => pre,
    }
}

/// Transactional configuration store.
///
/// It keeps the committed configuration that readers see and a working
/// copy for updates.  An update is computed on a draft obtained from
/// `begin_configure` and published with a single `commit`; `rollback`
/// restores the working copy after an abandoned update.  Readers only ever
/// see a value that some single `commit` published in full.
#[derive(Debug)]
pub struct ConfigStore {
    committed: Config,
    proxy: Config,
}

impl ConfigStore {
    /// The committed configuration, the one readers see.
    pub closed spec fn committed_view(&self) -> ConfigV {
        self.committed@
    }

    /// The working copy used by updates.
    pub closed spec fn proxy_view(&self) -> ConfigV {
        self.proxy@
    }

    /// Steady state between updates: the working copy agrees with the
    /// committed value.
    pub open spec fn wf(&self) -> bool {
        self.proxy_view() == self.committed_view()
    }

    /// A store holding the all-unset configuration.
    pub fn new() -> (s: ConfigStore)
        ensures
            s.committed_view() == default_config_view(),
            s.wf(),
    {
        ConfigStore { committed: Config::default(), proxy: Config::default() }
    }

    /// Hands out a consistent snapshot of the committed configuration.
    pub fn read_config(&self) -> (g: ConfigReadGuard)
        ensures
            g@ == self.committed_view(),
    {
        ConfigReadGuard { config: self.committed.clone() }
    }

    /// Begins an update: a draft copy of the working configuration, which
    /// the caller mutates in isolation.
    pub fn begin_configure(&self) -> (draft: Config)
        ensures
            draft@ == self.proxy_view(),
    {
        self.proxy.clone()
    }

    /// Publishes a completed draft: the committed configuration becomes
    /// the draft in full, in one irreversible step.
    pub fn commit(&mut self, draft: Config)
        ensures
            final(self).committed_view() == (committed_after(
                Some(draft@),
                old(self).committed_view(),
            )),
            final(self).wf(),
    {
        self.proxy = draft.clone();
        self.committed = draft;
    }

    /// Undoes an abandoned update (for instance one whose mutator
    /// panicked): the working copy is restored from the committed value,
    /// which itself stays exactly as it was before the update began.
    pub fn rollback(&mut self)
        ensures
            final(self).committed_view() == (committed_after(None, old(self).committed_view())),
            final(self).wf(),
    {
        self.proxy = self.committed.clone();
    }

    /// Replaces the committed configuration and returns the previous one.
    pub fn replace_config(&mut self, new_config: Config) -> (old_config: Config)
        ensures
            final(self).committed_view() == new_config@,
            old_config@ == old(self).committed_view(),
            final(self).proxy_view() == old(self).proxy_view(),
    {
        let prev = self.committed.clone();
        self.committed = new_config;
        prev
    }
}

/// Configuration updates are transactional: a completed update publishes
/// every field of the draft at once, and an abandoned one leaves every
/// field exactly as it was — no observable state mixes fields of the two.
pub proof fn lemma_configure_atomic(pre: ConfigV, draft: ConfigV)
    ensures
        committed_after(Some(draft), pre) == draft,
        committed_after(Some(draft), pre).api_key == draft.api_key,
        committed_after(Some(draft), pre).env == draft.env,
        committed_after(Some(draft), pre).report_data == draft.report_data,
        committed_after(Some(draft), pre).root == draft.root,
        committed_after(Some(draft), pre).revision == draft.revision,
        committed_after(Some(draft), pre).hostname == draft.hostname,
        committed_after(Some(draft), pre).connection == draft.connection,
        committed_after(Some(draft), pre).request == draft.request,
        committed_after(None, pre) == pre,
{
}

/// The raw environment values that configuration loading reads, each
/// `None` when the corresponding variable is unset.
#[derive(Debug, Default)]
pub struct EnvSettings {
    pub api_key: Option<String>,
    pub env: Option<String>,
    pub report_data: Option<String>,
    pub root: Option<String>,
    pub revision: Option<String>,
    pub hostname: Option<String>,
    pub connection_secure: Option<String>,
    pub connection_host: Option<String>,
    pub connection_port: Option<String>,
    pub filter_keys: Option<String>,
}

/// The mathematical value of the raw environment values.
pub struct EnvSettingsV {
    pub api_key: Option<Seq<char>>,
    pub env: Option<Seq<char>>,
    pub report_data: Option<Seq<char>>,
    pub root: Option<Seq<char>>,
    pub revision: Option<Seq<char>>,
    pub hostname: Option<Seq<char>>,
    pub connection_secure: Option<Seq<char>>,
    pub connection_host: Option<Seq<char>>,
    pub connection_port: Option<Seq<char>>,
    pub filter_keys: Option<Seq<char>>,
}

impl View for EnvSettings {
    type V = EnvSettingsV;

    open spec fn view(&self) -> EnvSettingsV {
        EnvSettingsV {
            api_key: opt_str_view(self.api_key),
            env: opt_str_view(self.env),
            report_data: opt_str_view(self.report_data),
            root: opt_str_view(self.root),
            revision: opt_str_view(self.revision),
            hostname: opt_str_view(self.hostname),
            connection_secure: opt_str_view(self.connection_secure),
            connection_host: opt_str_view(self.connection_host),
            connection_port: opt_str_view(self.connection_port),
            filter_keys: opt_str_view(self.filter_keys),
        }
    }
}

/// The boolean denoted by an environment value: `true`, `t` and `1`, in
/// any ASCII case.
pub open spec fn bool_of_env(s: Seq<char>) -> bool {
    eq_ignore_case_spec(s, "true"@) || eq_ignore_case_spec(s, "t"@) || eq_ignore_case_spec(s, "1"@)
}

/// The filter-key list denoted by an environment value: the text split at
/// commas, each piece trimmed.
pub open spec fn keys_of_env(s: Seq<char>) -> Seq<Seq<char>> {
    split_char_spec(s, ',').map_values(|p: Seq<char>| trim_spec(p))
}

/// An optional text field filled from the environment only when unset.
pub open spec fn filled_str(cur: Option<Seq<char>>, raw: Option<Seq<char>>) -> Option<Seq<char>> {
    if cur is Some {
        cur
    } else {
        raw
    }
}

/// An optional boolean field filled from the environment only when unset.
pub open spec fn filled_bool(cur: Option<bool>, raw: Option<Seq<char>>) -> Option<bool> {
    if cur is Some {
        cur
    } else {
        match raw {
            Some(s) => Some(bool_of_env(s)),
            None => None,
        }
    }
}

/// An optional port field filled from the environment only when unset; an
/// unparseable value leaves the field unset.
pub open spec fn filled_port(cur: Option<u16>, raw: Option<Seq<char>>) -> Option<u16> {
    if cur is Some {
        cur
    } else {
        match raw {
            Some(s) => u16_digits_spec(s),
            None => None,
        }
    }
}

/// An optional key-list field filled from the environment only when unset.
pub open spec fn filled_keys(cur: Option<Seq<Seq<char>>>, raw: Option<Seq<char>>) -> Option<
    Seq<Seq<char>>,
> {
    if cur is Some {
        cur
    } else {
        match raw {
            Some(s) => Some(keys_of_env(s)),
            None => None,
        }
    }
}

/// The configuration with every unset field filled from the environment
/// values; explicitly set fields are never overwritten.
pub open spec fn env_applied(c: ConfigV, e: EnvSettingsV) -> ConfigV {
    ConfigV {
        api_key: filled_str(c.api_key, e.api_key),
        env: filled_str(c.env, e.env),
        report_data: filled_bool(c.report_data, e.report_data),
        root: filled_str(c.root, e.root),
        revision: filled_str(c.revision, e.revision),
        hostname: filled_str(c.hostname, e.hostname),
        connection: ConnectionConfigV {
            secure: filled_bool(c.connection.secure, e.connection_secure),
            host: filled_str(c.connection.host, e.connection_host),
            port: filled_port(c.connection.port, e.connection_port),
        },
        request: RequestConfigV {
            filter_keys: filled_keys(c.request.filter_keys, e.filter_keys),
        },
    }
}

fn env_bool_value(raw: &String) -> (r: bool)
    ensures
        r == bool_of_env(raw@),
{
    eq_ignore_case(raw.as_str(), "true") || eq_ignore_case(raw.as_str(), "t") || eq_ignore_case(
        raw.as_str(),
        "1",
    )
}

fn env_keys_value(raw: &String) -> (r: Vec<String>)
    ensures
        r.deep_view() == keys_of_env(raw@),
{
    let pieces = split_char(raw.as_str(), ',');
    let mut r: Vec<String> = Vec::new();
    let mut i: usize = 0;
    while i < pieces.len()
        invariant
            0 <= i <= pieces.len(),
            pieces.deep_view() == split_char_spec(raw@, ','),
            r@.len() == i,
            forall|k: int| 0 <= k < i ==> r@[k]@ == trim_spec(pieces.deep_view()[k]),
        decreases pieces.len() - i,
    {
        let t = trim_str(pieces[i].as_str());
        proof {
            assert(pieces.deep_view()[i as int] == pieces@[i as int]@);
        }
        r.push(t);
        i = i + 1;
    }
    proof {
        assert forall|k: int| 0 <= k < pieces.deep_view().len() implies r.deep_view()[k]
            == keys_of_env(raw@)[k] by {
            assert(r.deep_view()[k] == r@[k]@);
        }
        assert(r.deep_view() =~= keys_of_env(raw@));
    }
    r
}

/// Fills every unset field of the configuration from the raw environment
/// values; a field already set keeps its value.
pub fn apply_env_settings(config: &mut Config, settings: EnvSettings)
    ensures
        final(config)@ == env_applied(old(config)@, settings@),
{
    let EnvSettings {
        api_key,
        env,
        report_data,
        root,
        revision,
        hostname,
        connection_secure,
        connection_host,
        connection_port,
        filter_keys,
    } = settings;
    if config.api_key.is_none() {
        config.api_key = api_key;
    }
    if config.env.is_none() {
        config.env = env;
    }
    if config.report_data.is_none() {
        config.report_data = match &report_data {
            Some(raw) => Some(env_bool_value(raw)),
            None => None,
        };
    }
    if config.root.is_none() {
        config.root = root;
    }
    if config.revision.is_none() {
        config.revision = revision;
    }
    if config.hostname.is_none() {
        config.hostname = hostname;
    }
    if config.connection.secure.is_none() {
        config.connection.secure = match &connection_secure {
            Some(raw) => Some(env_bool_value(raw)),
            None => None,
        };
    }
    if config.connection.host.is_none() {
        config.connection.host = connection_host;
    }
    if config.connection.port.is_none() {
        config.connection.port = match &connection_port {
            Some(raw) => parse_u16(raw.as_str()),
            None => None,
        };
    }
    if config.request.filter_keys.is_none() {
        config.request.filter_keys = match &filter_keys {
            Some(raw) => Some(env_keys_value(raw)),
            None => None,
        };
    }
}

/// Reads configuration from the raw environment values, replacing only the
/// fields that are unset, and publishes the result.
pub fn configure_from_env(store: &mut ConfigStore, settings: EnvSettings)
    requires
        old(store).wf(),
    ensures
        final(store).wf(),
        final(store).committed_view() == env_applied(old(store).committed_view(), settings@),
{
    let mut draft = store.begin_configure();
    apply_env_settings(&mut draft, settings);
    store.commit(draft);
}

} // verus!
