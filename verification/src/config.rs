//! Client configuration: where the platform is, who is asking, and the
//! timeouts, retry and cache settings the client runs with. Durations are
//! whole milliseconds.

use vstd::prelude::*;
use crate::pep_handshake::PEPHandshake;
use crate::text::{append, debug_quote, debug_quoted, decimal, digit, owned, to_decimal};

verus! {

/// Whether the client runs against production or a sandbox.
#[derive(Debug, Clone, Copy, PartialEq, Eq)]
pub enum Mode {
    Production,
    Sandbox,
}

impl Default for Mode {
    fn default() -> (m: Self)
        ensures
            m is Production,
    {
        Mode::Production
    }
}

/// The retry settings: whether to retry, how many attempts in all, and the
/// delay before the first retry, in milliseconds. Mutations are never
/// retried, whatever this says.
#[derive(Debug, Clone, Copy, PartialEq, Eq)]
pub struct RetryConfig {
    pub enabled: bool,
    pub max_attempts: u32,
    pub initial_delay: u64,
}

impl Default for RetryConfig {
    /// Enabled, three attempts, one second before the first retry.
    fn default() -> (r: Self)
        ensures
            r.enabled,
            r.max_attempts == 3,
            r.initial_delay == 1000,
    {
        RetryConfig { enabled: true, max_attempts: 3, initial_delay: 1000 }
    }
}

/// The response cache settings: whether to cache, for how long in
/// milliseconds, and how many entries at most.
#[derive(Debug, Clone, Copy, PartialEq, Eq)]
pub struct CacheConfig {
    pub enabled: bool,
    pub ttl: u64,
    pub max_capacity: u64,
}

impl Default for CacheConfig {
    /// Enabled, sixty seconds, ten thousand entries.
    fn default() -> (c: Self)
        ensures
            c.enabled,
            c.ttl == 60_000,
            c.max_capacity == 10_000,
    {
        CacheConfig { enabled: true, ttl: 60_000, max_capacity: 10_000 }
    }
}

/// Everything a client is built from. It has no `Debug`: it carries
/// credentials, and [`AxonFlowConfig::debug_text`] is its rendering, with
/// each credential redacted.
#[derive(Clone)]
pub struct AxonFlowConfig {
    pub endpoint: String,
    pub client_id: Option<String>,
    pub client_secret: Option<String>,
    /// The per-user identity presented on every request bound for the
    /// configured endpoint, as `X-User-Token`.
    pub user_token: Option<String>,
    pub license_key: Option<String>,
    pub mode: Mode,
    pub debug: bool,
    /// Per-request timeout, in milliseconds.
    pub timeout: u64,
    /// Timeout for plan generation, in milliseconds.
    pub map_timeout: u64,
    pub retry: RetryConfig,
    pub cache: CacheConfig,
    pub insecure_skip_tls_verify: bool,
    /// The capability declaration this client presents, if any.
    pub pep_handshake: Option<PEPHandshake>,
}

/// Whether `c` holds the default settings for everything but the endpoint,
/// the credentials, the mode and the debug flag.
pub open spec fn default_settings(c: AxonFlowConfig) -> bool {
    &&& c.user_token is None
    &&& c.license_key is None
    &&& c.timeout == 60_000
    &&& c.map_timeout == 120_000
    &&& c.retry == RetryConfig { enabled: true, max_attempts: 3, initial_delay: 1000 }
    &&& c.cache == CacheConfig { enabled: true, ttl: 60_000, max_capacity: 10_000 }
    &&& !c.insecure_skip_tls_verify
    &&& c.pep_handshake is None
}

impl Default for AxonFlowConfig {
    /// No endpoint, no credentials, production, and the default settings.
    fn default() -> (c: Self)
        ensures
            c.endpoint@.len() == 0,
            c.client_id is None,
            c.client_secret is None,
            c.mode is Production,
            !c.debug,
            default_settings(c),
    {
        AxonFlowConfig {
            endpoint: String::new(),
            client_id: None,
            client_secret: None,
            user_token: None,
            license_key: None,
            mode: Mode::Production,
            debug: false,
            timeout: 60_000,
            map_timeout: 120_000,
            retry: RetryConfig::default(),
            cache: CacheConfig::default(),
            insecure_skip_tls_verify: false,
            pep_handshake: None,
        }
    }
}

impl AxonFlowConfig {
    /// A production configuration for `endpoint`, with no credentials and
    /// the default settings.
    pub fn new(endpoint: &str) -> (c: Self)
        ensures
            c.endpoint@ == endpoint@,
            c.client_id is None,
            c.client_secret is None,
            c.mode is Production,
            !c.debug,
            default_settings(c),
    {
        let mut c = AxonFlowConfig::default();
        c.endpoint = owned(endpoint);
        c
    }

    /// Local development: the docker-compose agent at
    /// `http://localhost:8080`, sandbox mode, debug logging, these
    /// credentials and the default settings.
    pub fn sandbox(client_id: &str, client_secret: &str) -> (c: Self)
        ensures
            c.endpoint@ == "http://localhost:8080"@,
            c.client_id matches Some(id) && id@ == client_id@,
            c.client_secret matches Some(s) && s@ == client_secret@,
            c.mode is Sandbox,
            c.debug,
            default_settings(c),
    {
        let mut c = AxonFlowConfig::default();
        c.endpoint = owned("http://localhost:8080");
        c.client_id = Some(owned(client_id));
        c.client_secret = Some(owned(client_secret));
        c.mode = Mode::Sandbox;
        c.debug = true;
        c
    }

    /// The same configuration with these credentials.
    pub fn with_auth(self, client_id: &str, client_secret: &str) -> (c: Self)
        ensures
            c.client_id matches Some(id) && id@ == client_id@,
            c.client_secret matches Some(s) && s@ == client_secret@,
            c.endpoint == self.endpoint,
            c.user_token == self.user_token,
            c.license_key == self.license_key,
            c.mode == self.mode,
            c.debug == self.debug,
            c.timeout == self.timeout,
            c.map_timeout == self.map_timeout,
            c.retry == self.retry,
            c.cache == self.cache,
            c.insecure_skip_tls_verify == self.insecure_skip_tls_verify,
            c.pep_handshake == self.pep_handshake,
    {
        let mut c = self;
        c.client_id = Some(owned(client_id));
        c.client_secret = Some(owned(client_secret));
        c
    }

    /// The same configuration with this license key.
    pub fn with_license_key(self, license_key: &str) -> (c: Self)
        ensures
            c.license_key matches Some(k) && k@ == license_key@,
            c.endpoint == self.endpoint,
            c.client_id == self.client_id,
            c.client_secret == self.client_secret,
            c.user_token == self.user_token,
            c.mode == self.mode,
            c.debug == self.debug,
            c.timeout == self.timeout,
            c.map_timeout == self.map_timeout,
            c.retry == self.retry,
            c.cache == self.cache,
            c.insecure_skip_tls_verify == self.insecure_skip_tls_verify,
            c.pep_handshake == self.pep_handshake,
    {
        let mut c = self;
        c.license_key = Some(owned(license_key));
        c
    }

    /// The same configuration in `mode`.
    pub fn with_mode(self, mode: Mode) -> (c: Self)
        ensures
            c == (AxonFlowConfig { mode, ..self }),
    {
        let mut c = self;
        c.mode = mode;
        c
    }

    /// The same configuration with this per-request timeout, in
    /// milliseconds.
    pub fn with_timeout(self, timeout: u64) -> (c: Self)
        ensures
            c == (AxonFlowConfig { timeout, ..self }),
    {
        let mut c = self;
        c.timeout = timeout;
        c
    }

    /// The same configuration with this plan-generation timeout, in
    /// milliseconds.
    pub fn with_map_timeout(self, timeout: u64) -> (c: Self)
        ensures
            c == (AxonFlowConfig { map_timeout: timeout, ..self }),
    {
        let mut c = self;
        c.map_timeout = timeout;
        c
    }

    /// The same configuration with these retry settings.
    pub fn with_retry(self, retry: RetryConfig) -> (c: Self)
        ensures
            c == (AxonFlowConfig { retry, ..self }),
    {
        let mut c = self;
        c.retry = retry;
        c
    }

    /// The same configuration presenting this capability declaration.
    pub fn with_pep_handshake(self, declared: PEPHandshake) -> (c: Self)
        ensures
            c == (AxonFlowConfig { pep_handshake: Some(declared), ..self }),
    {
        let mut c = self;
        c.pep_handshake = Some(declared);
        c
    }

    /// The same configuration with these cache settings.
    pub fn with_cache(self, cache: CacheConfig) -> (c: Self)
        ensures
            c == (AxonFlowConfig { cache, ..self }),
    {
        let mut c = self;
        c.cache = cache;
        c
    }
}


/// How a credential renders: whether it is set, never its value.
pub open spec fn redacted_text(v: Option<String>) -> Seq<char> {
    if v is Some {
        "Some(\"[REDACTED]\")"@
    } else {
        "None"@
    }
}

/// How an optional, non-secret string renders.
pub open spec fn optional_text(v: Option<String>) -> Seq<char> {
    match v {
        Some(s) => "Some("@ + debug_quoted(s@) + ")"@,
        None => "None"@,
    }
}

pub open spec fn bool_text(b: bool) -> Seq<char> {
    if b {
        "true"@
    } else {
        "false"@
    }
}

pub open spec fn mode_text(m: Mode) -> Seq<char> {
    match m {
        Mode::Production => "Production"@,
        Mode::Sandbox => "Sandbox"@,
    }
}

/// The fractional digits of a whole number of milliseconds below a second,
/// as `Duration`'s `Debug` writes them: three places, trailing zeros dropped.
pub open spec fn fraction_text(frac: nat) -> Seq<char> {
    if frac % 100 == 0 {
        seq![digit(frac / 100)]
    } else if frac % 10 == 0 {
        seq![digit(frac / 100), digit((frac / 10) % 10)]
    } else {
        seq![digit(frac / 100), digit((frac / 10) % 10), digit(frac % 10)]
    }
}

/// A duration of `ms` milliseconds as `Duration`'s `Debug` writes it:
/// `0ns`, `250ms`, `60s`, `1.5s`.
pub open spec fn duration_text(ms: u64) -> Seq<char> {
    if ms == 0 {
        "0ns"@
    } else if ms < 1000 {
        decimal(ms as nat) + "ms"@
    } else if ms % 1000 == 0 {
        decimal((ms / 1000) as nat) + "s"@
    } else {
        decimal((ms / 1000) as nat) + "."@ + fraction_text((ms % 1000) as nat) + "s"@
    }
}

pub open spec fn retry_text(r: RetryConfig) -> Seq<char> {
    "RetryConfig { enabled: "@ + bool_text(r.enabled) + ", max_attempts: "@ + decimal(r.max_attempts as nat)
        + ", initial_delay: "@ + duration_text(r.initial_delay) + " }"@
}

pub open spec fn cache_text(c: CacheConfig) -> Seq<char> {
    "CacheConfig { enabled: "@ + bool_text(c.enabled) + ", ttl: "@ + duration_text(c.ttl) + ", max_capacity: "@
        + decimal(c.max_capacity as nat) + " }"@
}

/// How a configuration renders: every setting, with the client secret, the
/// per-user token and the license key shown only as set or not.
pub open spec fn config_text(c: AxonFlowConfig) -> Seq<char> {
    "AxonFlowConfig { endpoint: "@ + debug_quoted(c.endpoint@) + ", client_id: "@ + optional_text(c.client_id)
        + ", client_secret: "@ + redacted_text(c.client_secret) + ", user_token: "@ + redacted_text(c.user_token)
        + ", license_key: "@ + redacted_text(c.license_key) + ", mode: "@ + mode_text(c.mode) + ", debug: "@
        + bool_text(c.debug) + ", timeout: "@ + duration_text(c.timeout) + ", map_timeout: "@ + duration_text(c.map_timeout)
        + ", retry: "@ + retry_text(c.retry) + ", cache: "@ + cache_text(c.cache) + ", insecure_skip_tls_verify: "@
        + bool_text(c.insecure_skip_tls_verify) + " }"@
}

/// Whether two configurations differ at most in the VALUES of their
/// credentials: each credential is set in one exactly when it is set in the
/// other, and every other setting is the same.
pub open spec fn same_but_credentials(a: AxonFlowConfig, b: AxonFlowConfig) -> bool {
    &&& a.endpoint@ == b.endpoint@
    &&& a.client_id == b.client_id
    &&& (a.client_secret is Some <==> b.client_secret is Some)
    &&& (a.user_token is Some <==> b.user_token is Some)
    &&& (a.license_key is Some <==> b.license_key is Some)
    &&& a.mode == b.mode
    &&& a.debug == b.debug
    &&& a.timeout == b.timeout
    &&& a.map_timeout == b.map_timeout
    &&& a.retry == b.retry
    &&& a.cache == b.cache
    &&& a.insecure_skip_tls_verify == b.insecure_skip_tls_verify
    &&& a.pep_handshake == b.pep_handshake
}

/// A credential never reaches the rendering: two configurations that differ
/// only in their credentials' values render the same.
pub proof fn law_rendering_never_shows_a_credential(a: AxonFlowConfig, b: AxonFlowConfig)
    requires
        same_but_credentials(a, b),
    ensures
        config_text(a) == config_text(b),
{
}

fn push_redacted(r: &mut String, v: &Option<String>)
    ensures
        final(r)@ == old(r)@ + redacted_text(*v),
{
    match v {
        Some(_) => append(r, "Some(\"[REDACTED]\")"),
        None => append(r, "None"),
    }
}

fn push_optional(r: &mut String, v: &Option<String>)
    ensures
        final(r)@ == old(r)@ + optional_text(*v),
{
    match v {
        Some(s) => {
            append(r, "Some(");
            let q = debug_quote(s.as_str());
            append(r, q.as_str());
            append(r, ")");
        },
        None => append(r, "None"),
    }
}

fn push_bool(r: &mut String, b: bool)
    ensures
        final(r)@ == old(r)@ + bool_text(b),
{
    if b {
        append(r, "true");
    } else {
        append(r, "false");
    }
}

fn push_digit(r: &mut String, d: u64)
    requires
        d < 10,
    ensures
        final(r)@ == old(r)@.push(digit(d as nat)),
{
    let t = to_decimal(d);
    append(r, t.as_str());
}

fn push_duration(r: &mut String, ms: u64)
    ensures
        final(r)@ == old(r)@ + duration_text(ms),
{
    if ms == 0 {
        append(r, "0ns");
    } else if ms < 1000 {
        let d = to_decimal(ms);
        append(r, d.as_str());
        append(r, "ms");
    } else {
        let d = to_decimal(ms / 1000);
        append(r, d.as_str());
        let frac = ms % 1000;
        if frac != 0 {
            append(r, ".");
            push_digit(r, frac / 100);
            if frac % 100 != 0 {
                push_digit(r, (frac / 10) % 10);
                if frac % 10 != 0 {
                    push_digit(r, frac % 10);
                }
            }
        }
        append(r, "s");
    }
}

fn push_retry(r: &mut String, c: &RetryConfig)
    ensures
        final(r)@ == old(r)@ + retry_text(*c),
{
    append(r, "RetryConfig { enabled: ");
    push_bool(r, c.enabled);
    append(r, ", max_attempts: ");
    let d = to_decimal(c.max_attempts as u64);
    append(r, d.as_str());
    append(r, ", initial_delay: ");
    push_duration(r, c.initial_delay);
    append(r, " }");
}

fn push_cache(r: &mut String, c: &CacheConfig)
    ensures
        final(r)@ == old(r)@ + cache_text(*c),
{
    append(r, "CacheConfig { enabled: ");
    push_bool(r, c.enabled);
    append(r, ", ttl: ");
    push_duration(r, c.ttl);
    append(r, ", max_capacity: ");
    let d = to_decimal(c.max_capacity);
    append(r, d.as_str());
    append(r, " }");
}

impl AxonFlowConfig {
    /// The configuration rendered for a log line: every setting, with each
    /// credential shown only as set or not.
    pub fn debug_text(&self) -> (r: String)
        ensures
            r@ == config_text(*self),
    {
        let mut r = owned("AxonFlowConfig { endpoint: ");
        let e = debug_quote(self.endpoint.as_str());
        append(&mut r, e.as_str());
        append(&mut r, ", client_id: ");
        push_optional(&mut r, &self.client_id);
        append(&mut r, ", client_secret: ");
        push_redacted(&mut r, &self.client_secret);
        append(&mut r, ", user_token: ");
        push_redacted(&mut r, &self.user_token);
        append(&mut r, ", license_key: ");
        push_redacted(&mut r, &self.license_key);
        append(&mut r, ", mode: ");
        match self.mode {
            Mode::Production => append(&mut r, "Production"),
            Mode::Sandbox => append(&mut r, "Sandbox"),
        }
        append(&mut r, ", debug: ");
        push_bool(&mut r, self.debug);
        append(&mut r, ", timeout: ");
        push_duration(&mut r, self.timeout);
        append(&mut r, ", map_timeout: ");
        push_duration(&mut r, self.map_timeout);
        append(&mut r, ", retry: ");
        push_retry(&mut r, &self.retry);
        append(&mut r, ", cache: ");
        push_cache(&mut r, &self.cache);
        append(&mut r, ", insecure_skip_tls_verify: ");
        push_bool(&mut r, self.insecure_skip_tls_verify);
        append(&mut r, " }");
        r
    }
}

} // verus!
