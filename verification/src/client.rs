//! The decisions the client makes around each HTTP call: how it is set up,
//! which identity a request carries and where, when a call is retried, and
//! when an unavailable platform fails open.

use vstd::prelude::*;
use vstd::utf8::encode_utf8;
use crate::config::{AxonFlowConfig, Mode};
use crate::error::{error_text, spec_is_retryable, AxonFlowError};
use crate::read_identity::{admissible_header_value, first_refused, first_refused_byte, unusable_token, unusable_token_text};
use crate::text::{append, chars_of, owned, str_eq, string_of, trim, trim_chars};

verus! {

/// The header an enterprise license key rides on.
pub const LICENSE_KEY_HEADER: &'static str = "X-License-Key";

/// The header naming the client to the platform.
pub const CLIENT_ID_HEADER: &'static str = "X-Client-ID";

/// The endpoint every try-mode client talks to.
pub const TRY_ENDPOINT: &'static str = "https://try.getaxonflow.com";

/// The tenant a client with no credentials is.
pub const COMMUNITY_CLIENT_ID: &'static str = "community";

/// The body-level user token of a call that named none.
pub const ANONYMOUS_USER: &'static str = "anonymous";

/// What `base64`'s standard padded engine makes of `bytes`.
pub uninterp spec fn base64_standard(bytes: Seq<u8>) -> Seq<char>;

/// `base64::engine::general_purpose::STANDARD.encode`.
#[verifier::external_body]
fn encode_base64_standard(bytes: &[u8]) -> (r: String)
    ensures
        r@ == base64_standard(bytes@),
{
    base64::Engine::encode(&base64::engine::general_purpose::STANDARD, bytes)
}

/// The Basic credentials a client presents: `id:secret`, base64-encoded,
/// the community tenant and an empty secret when none are configured.
pub open spec fn basic_value(id: Option<Seq<char>>, secret: Option<Seq<char>>) -> Seq<char> {
    let i = match id {
        Some(v) => v,
        None => COMMUNITY_CLIENT_ID@,
    };
    let s = match secret {
        Some(v) => v,
        None => Seq::empty(),
    };
    "Basic "@ + base64_standard(encode_utf8(i + ":"@ + s))
}

pub open spec fn opt_view(o: Option<String>) -> Option<Seq<char>> {
    match o {
        Some(s) => Some(s@),
        None => None,
    }
}

/// The `Authorization` value for these credentials.
pub fn basic_authorization(client_id: Option<&str>, client_secret: Option<&str>) -> (r: String)
    ensures
        r@ == basic_value(
            match client_id {
                Some(v) => Some(v@),
                None => None,
            },
            match client_secret {
                Some(v) => Some(v@),
                None => None,
            },
        ),
{
    let mut pair = match client_id {
        Some(v) => owned(v),
        None => owned(COMMUNITY_CLIENT_ID),
    };
    append(&mut pair, ":");
    match client_secret {
        Some(s) => append(&mut pair, s),
        None => {
            proof {
                reveal_strlit("");
            }
        },
    }
    proof {
        if client_secret is None {
            assert(pair@ =~= pair@ + Seq::<char>::empty());
        }
    }
    let encoded = encode_base64_standard(pair.as_str().as_bytes());
    let mut r = owned("Basic ");
    append(&mut r, encoded.as_str());
    r
}

/// Whether `value` can be sent as an HTTP header value.
pub fn header_admissible(value: &str) -> (r: bool)
    ensures
        r == admissible_header_value(encode_utf8(value@)),
{
    first_refused_byte(value).is_none()
}

/// Everything a client is built with, once its configuration is checked.
pub struct ClientSetup {
    /// The configuration as the client will use it.
    pub config: AxonFlowConfig,
    /// The headers every request carries, by name and value.
    pub headers: Vec<(String, String)>,
    /// Whether invalid TLS certificates are accepted.
    pub accept_invalid_certs: bool,
    /// Whether a secret was configured without a client id.
    pub secret_without_id: bool,
}

/// The headers a client sends with every request: `Authorization`, then
/// `X-Client-ID` when the id can be a header value, then the license key
/// when one is configured and can be a header value.
pub open spec fn default_headers(c: AxonFlowConfig) -> Seq<(Seq<char>, Seq<char>)> {
    let id = match c.client_id {
        Some(v) => v@,
        None => COMMUNITY_CLIENT_ID@,
    };
    let auth = seq![("Authorization"@, basic_value(opt_view(c.client_id), opt_view(c.client_secret)))];
    let with_id = if admissible_header_value(encode_utf8(id)) {
        auth.push((CLIENT_ID_HEADER@, id))
    } else {
        auth
    };
    match c.license_key {
        Some(k) => if admissible_header_value(encode_utf8(k@)) {
            with_id.push((LICENSE_KEY_HEADER@, k@))
        } else {
            with_id
        },
        None => with_id,
    }
}

/// What setting up a client with `config` comes to: a refusal for a retry
/// budget of zero, and in try mode for a missing client id; otherwise the
/// configuration, with the try endpoint in try mode, and its headers.
pub open spec fn setup_outcome(config: AxonFlowConfig, try_mode: bool, insecure_env: bool, r: Result<ClientSetup, AxonFlowError>) -> bool {
    if config.retry.max_attempts == 0 {
        r matches Err(AxonFlowError::ConfigError(m)) && m@ == "retry.max_attempts must be at least 1"@
    } else if try_mode && config.client_id is None {
        r matches Err(AxonFlowError::ConfigError(m)) && m@ == "ClientID is required in try mode (AXONFLOW_TRY=1)."@
    } else {
        &&& r is Ok
        &&& {
            let s = r->Ok_0;
            let expected_endpoint = if try_mode { TRY_ENDPOINT@ } else { config.endpoint@ };
            &&& s.config.endpoint@ == expected_endpoint
            &&& s.config.client_id == config.client_id
            &&& s.config.client_secret == config.client_secret
            &&& s.config.user_token == config.user_token
            &&& s.config.license_key == config.license_key
            &&& s.config.mode == config.mode
            &&& s.config.debug == config.debug
            &&& s.config.insecure_skip_tls_verify == config.insecure_skip_tls_verify
            &&& s.config.timeout == config.timeout
            &&& s.config.map_timeout == config.map_timeout
            &&& s.config.retry == config.retry
            &&& s.config.cache == config.cache
            &&& s.config.pep_handshake == config.pep_handshake
            &&& s.headers@.map_values(|h: (String, String)| (h.0@, h.1@)) == default_headers(config)
            &&& s.accept_invalid_certs == (config.insecure_skip_tls_verify || insecure_env)
            &&& s.secret_without_id == (config.client_secret is Some && config.client_id is None)
        }
    }
}

/// Checks a configuration and works out what the client is built with.
/// `try_mode` is whether `AXONFLOW_TRY` is `1`; `insecure_env` whether
/// `AXONFLOW_INSECURE_TLS` is.
pub fn prepare_client(config: AxonFlowConfig, try_mode: bool, insecure_env: bool) -> (r: Result<ClientSetup, AxonFlowError>)
    ensures
        setup_outcome(config, try_mode, insecure_env, r),
{
    if config.retry.max_attempts == 0 {
        return Err(AxonFlowError::ConfigError(owned("retry.max_attempts must be at least 1")));
    }
    let mut config = config;
    let ghost given = config;
    if try_mode {
        config.endpoint = owned(TRY_ENDPOINT);
        if config.client_id.is_none() {
            return Err(AxonFlowError::ConfigError(owned("ClientID is required in try mode (AXONFLOW_TRY=1).")));
        }
    }
    let secret_without_id = config.client_secret.is_some() && config.client_id.is_none();
    let auth = basic_authorization(
        match &config.client_id {
            Some(v) => Some(v.as_str()),
            None => None,
        },
        match &config.client_secret {
            Some(v) => Some(v.as_str()),
            None => None,
        },
    );
    let mut headers: Vec<(String, String)> = Vec::new();
    headers.push((owned("Authorization"), auth));
    let id = match &config.client_id {
        Some(v) => v.as_str(),
        None => COMMUNITY_CLIENT_ID,
    };
    if header_admissible(id) {
        headers.push((owned(CLIENT_ID_HEADER), owned(id)));
    }
    match &config.license_key {
        Some(k) => if header_admissible(k.as_str()) {
            headers.push((owned(LICENSE_KEY_HEADER), owned(k.as_str())));
        },
        None => {},
    }
    proof {
        let expected = default_headers(given);
        assert(headers@.map_values(|h: (String, String)| (h.0@, h.1@)) =~= expected);
    }
    let accept_invalid_certs = config.insecure_skip_tls_verify || insecure_env;
    Ok(ClientSetup { config, headers, accept_invalid_certs, secret_without_id })
}

/// The body-level user token of a proxied call: `anonymous` for an empty one.
pub fn effective_user_token(user_token: &str) -> (r: &str)
    ensures
        user_token@.len() == 0 ==> r@ == ANONYMOUS_USER@,
        user_token@.len() > 0 ==> r == user_token,
{
    if user_token.is_empty() {
        ANONYMOUS_USER
    } else {
        user_token
    }
}

/// The request types that change state, and are therefore never cached and
/// never retried.
pub open spec fn mutation(request_type: Seq<char>) -> bool {
    ||| request_type == "execute-plan"@
    ||| request_type == "generate-plan"@
    ||| request_type == "cancel-plan"@
    ||| request_type == "update-plan"@
}

/// Whether a request type changes state.
pub fn is_mutation(request_type: &str) -> (r: bool)
    ensures
        r == mutation(request_type@),
{
    str_eq(request_type, "execute-plan") || str_eq(request_type, "generate-plan") || str_eq(request_type, "cancel-plan")
        || str_eq(request_type, "update-plan")
}

/// How a proxied call of one request type is carried out: whether the cache
/// is consulted and filled, and whether the retry loop runs.
#[derive(Debug, Clone, Copy, PartialEq, Eq)]
pub struct ProxyPlan {
    /// Look for a cached answer before sending.
    pub consult_cache: bool,
    /// Store a successful answer.
    pub store_success: bool,
    /// Run the retry loop rather than a single attempt.
    pub retry: bool,
}

/// The plan for `request_type`: a mutation is never cached and never
/// retried; anything else uses whichever of the two is enabled.
pub open spec fn plan_for(request_type: Seq<char>, retry_enabled: bool, cache_enabled: bool) -> ProxyPlan {
    let m = mutation(request_type);
    ProxyPlan { consult_cache: cache_enabled && !m, store_success: cache_enabled && !m, retry: retry_enabled && !m }
}

/// Plans a proxied call.
pub fn proxy_plan(request_type: &str, retry_enabled: bool, cache_enabled: bool) -> (p: ProxyPlan)
    ensures
        p == plan_for(request_type@, retry_enabled, cache_enabled),
{
    let m = is_mutation(request_type);
    ProxyPlan { consult_cache: cache_enabled && !m, store_success: cache_enabled && !m, retry: retry_enabled && !m }
}

/// A mutation (executing, generating, cancelling or updating a plan) is
/// sent exactly once and its answer is neither read from nor written to the
/// cache, whatever the configuration.
pub proof fn law_mutations_bypass_cache_and_retry(request_type: Seq<char>, retry_enabled: bool, cache_enabled: bool)
    requires
        mutation(request_type),
    ensures
        !plan_for(request_type, retry_enabled, cache_enabled).consult_cache,
        !plan_for(request_type, retry_enabled, cache_enabled).store_success,
        !plan_for(request_type, retry_enabled, cache_enabled).retry,
{
}

/// In production every server error (any status from 500 to 599) and every
/// throttle (429) fails open; outside production nothing does.
pub proof fn law_production_fails_open_on_every_server_error(mode: Mode, status: u16, message: String)
    ensures
        mode is Production && (500 <= status <= 599 || status == 429)
            ==> (mode is Production && spec_is_retryable(&AxonFlowError::ApiError { status, message })),
        !(mode is Production) ==> !(mode is Production && spec_is_retryable(&AxonFlowError::ApiError { status, message })),
{
}

/// Whether a failed proxied call fails open: only in production, and only
/// for an error a retry could change.
pub fn should_fail_open(mode: Mode, error: &AxonFlowError) -> (r: bool)
    ensures
        r == (mode is Production && spec_is_retryable(error)),
{
    matches!(mode, Mode::Production) && error.is_fail_open_eligible()
}

/// The error a fail-open response carries.
pub fn fail_open_error(error: &AxonFlowError) -> (r: String)
    ensures
        r@ == "AxonFlow unavailable (fail-open): "@ + error_text(error),
{
    let mut r = owned("AxonFlow unavailable (fail-open): ");
    let t = error.to_string();
    append(&mut r, t.as_str());
    r
}

/// Whether a failed attempt ends the retry loop: a `4xx` other than `429`,
/// `402` and `403`. Every other failure is tried again.
pub open spec fn terminal_failure(e: &AxonFlowError) -> bool {
    e matches AxonFlowError::ApiError { status, .. } && 400 <= *status < 500 && *status != 429 && *status != 402 && *status != 403
}

/// Whether a failed attempt ends the retry loop.
pub fn retry_is_terminal(error: &AxonFlowError) -> (r: bool)
    ensures
        r == terminal_failure(error),
{
    match error {
        AxonFlowError::ApiError { status, .. } => *status >= 400 && *status < 500 && *status != 429 && *status != 402
            && *status != 403,
        _ => false,
    }
}

/// The wait before attempt `attempt` (counting from zero): nothing before
/// the first, then the initial delay doubling each time, saturating.
pub open spec fn backoff(initial: u64, attempt: u32) -> nat
    decreases attempt,
{
    if attempt == 0 {
        0
    } else if attempt == 1 {
        initial as nat
    } else {
        let prev = backoff(initial, (attempt - 1) as u32);
        if 2 * prev <= u64::MAX { 2 * prev } else { u64::MAX as nat }
    }
}

/// The wait before attempt `attempt`, in milliseconds.
pub fn retry_delay(initial: u64, attempt: u32) -> (r: u64)
    ensures
        r == backoff(initial, attempt),
{
    if attempt == 0 {
        return 0;
    }
    let mut d: u64 = initial;
    let mut i: u32 = 1;
    while i < attempt
        invariant
            1 <= i <= attempt,
            d == backoff(initial, i),
        decreases attempt - i,
    {
        d = if d <= u64::MAX / 2 { d * 2 } else { u64::MAX };
        i += 1;
    }
    d
}

/// What a proxied call's cache entry is keyed on, before hashing: the
/// request type, the query, the body's user token, and the read identity the
/// request will carry (empty when none). A derived client that presents
/// another identity therefore never shares an entry with its parent.
pub open spec fn cache_key_parts_spec(request_type: Seq<char>, query: Seq<char>, user_token: Seq<char>, identity: Option<Seq<char>>) -> Seq<Seq<char>> {
    seq![request_type, query, user_token, match identity {
        Some(t) => t,
        None => Seq::empty(),
    }]
}

/// The parts a proxied call's cache key is built from, in order.
pub fn cache_key_parts(request_type: &str, query: &str, user_token: &str, identity: Option<&str>) -> (r: Vec<String>)
    ensures
        r@.map_values(|p: String| p@) == cache_key_parts_spec(request_type@, query@, user_token@, match identity {
            Some(t) => Some(t@),
            None => None,
        }),
{
    let mut r: Vec<String> = Vec::new();
    r.push(owned(request_type));
    r.push(owned(query));
    r.push(owned(user_token));
    match identity {
        Some(t) => r.push(owned(t)),
        None => {
            proof {
                reveal_strlit("");
                assert(""@ =~= Seq::<char>::empty());
            }
            r.push(owned(""));
        },
    }
    proof {
        assert(r@.map_values(|p: String| p@) =~= cache_key_parts_spec(request_type@, query@, user_token@, match identity {
            Some(t) => Some(t@),
            None => None,
        }));
    }
    r
}

/// Two calls that present different non-empty read identities never key
/// the same cache entry.
pub proof fn law_identities_never_share_a_cache_entry(
    request_type: Seq<char>,
    query: Seq<char>,
    user_token: Seq<char>,
    a: Seq<char>,
    b: Seq<char>,
)
    requires
        a != b,
    ensures
        cache_key_parts_spec(request_type, query, user_token, Some(a)) != cache_key_parts_spec(request_type, query, user_token, Some(b)),
{
    assert(cache_key_parts_spec(request_type, query, user_token, Some(a))[3] == a);
    assert(cache_key_parts_spec(request_type, query, user_token, Some(b))[3] == b);
}

/// What the retry loop does after attempt `attempt` (counted from 0) failed.
#[derive(Debug, Clone, Copy, PartialEq, Eq)]
pub enum RetryAction {
    /// Stop, and report the failure.
    GiveUp,
    /// Wait `delay` milliseconds, then send attempt `next`.
    Wait { delay: u64, next: u32 },
}

/// The retry loop's decision after a failed attempt: a terminal failure, or
/// the last attempt of the budget, gives up; anything else waits the backoff
/// of the next attempt and sends it.
pub open spec fn retry_step(attempt: u32, max_attempts: u32, initial_delay: u64, error: &AxonFlowError) -> RetryAction {
    if terminal_failure(error) || attempt + 1 >= max_attempts {
        RetryAction::GiveUp
    } else {
        RetryAction::Wait { delay: backoff(initial_delay, (attempt + 1) as u32) as u64, next: (attempt + 1) as u32 }
    }
}

/// Decides what follows a failed attempt.
pub fn after_failure(attempt: u32, max_attempts: u32, initial_delay: u64, error: &AxonFlowError) -> (a: RetryAction)
    ensures
        a == retry_step(attempt, max_attempts, initial_delay, error),
{
    if retry_is_terminal(error) || attempt as u64 + 1 >= max_attempts as u64 {
        return RetryAction::GiveUp;
    }
    let next = attempt + 1;
    RetryAction::Wait { delay: retry_delay(initial_delay, next), next }
}

/// The retry loop never outruns its budget and never repeats a terminal
/// failure: after a failed attempt within the budget it either gives up or
/// sends the very next attempt, still within the budget; a terminal failure
/// always gives up.
pub proof fn law_retries_stay_within_the_budget(attempt: u32, max_attempts: u32, initial_delay: u64, error: &AxonFlowError)
    requires
        attempt < max_attempts,
    ensures
        retry_step(attempt, max_attempts, initial_delay, error) matches RetryAction::Wait { next, .. } ==> next == attempt + 1
            && next < max_attempts,
        terminal_failure(error) ==> retry_step(attempt, max_attempts, initial_delay, error) is GiveUp,
{
}

/// The error a retry loop with no attempt to make reports.
pub fn no_attempts_error() -> (e: AxonFlowError)
    ensures
        e matches AxonFlowError::ConfigError(m) && m@ == "retry loop completed with no attempts"@,
{
    AxonFlowError::ConfigError(owned("retry loop completed with no attempts"))
}

/// Whether a status carries a response body to read: a success, or the
/// `402` and `403` that carry policy and quota envelopes.
pub fn status_carries_response(status: u16) -> (r: bool)
    ensures
        r == ((200 <= status < 300) || status == 402 || status == 403),
{
    (200 <= status && status < 300) || status == 402 || status == 403
}

/// The error for a status that is not a success, with its body.
pub fn status_error(status: u16, body: String) -> (e: AxonFlowError)
    ensures
        e == (AxonFlowError::ApiError { status, message: body }),
{
    AxonFlowError::ApiError { status, message: body }
}

/// The read identity a derived client presents: the token, trimmed, or none
/// for one that is empty after trimming.
pub fn as_user_token(user_token: &str) -> (r: Option<String>)
    ensures
        trim(user_token@).len() == 0 ==> r is None,
        trim(user_token@).len() > 0 ==> r is Some && r->0@ == trim(user_token@),
{
    let cs = chars_of(user_token);
    let t = trim_chars(cs.as_slice());
    if t.len() == 0 {
        None
    } else {
        Some(string_of(t.as_slice()))
    }
}

/// The origin `url::Url::parse` finds in a URL: its scheme, host, and port
/// or the scheme's known default.
pub uninterp spec fn url_origin(url: Seq<char>) -> Option<(Seq<char>, Option<Seq<char>>, Option<u16>)>;

/// `url::Url::parse`, then `scheme`, `host_str` and `port_or_known_default`.
#[verifier::external_body]
fn parsed_origin(url: &str) -> (r: Option<(String, Option<String>, Option<u16>)>)
    ensures
        match r {
            Some(o) => url_origin(url@) == Some((o.0@, opt_view(o.1), o.2)),
            None => url_origin(url@) is None,
        },
{
    match url::Url::parse(url) {
        Ok(u) => {
            let host = match u.host_str() {
                Some(h) => Some(h.to_string()),
                None => None,
            };
            Some((u.scheme().to_string(), host, u.port_or_known_default()))
        },
        Err(_) => None,
    }
}

/// Whether two URLs are the same origin: scheme, host AND port. Two URLs
/// either of which does not parse are not.
pub open spec fn same_origin_spec(a: Seq<char>, b: Seq<char>) -> bool {
    url_origin(a) is Some && url_origin(a) == url_origin(b)
}

/// Whether two URLs are the same origin.
pub fn same_origin(a: &str, b: &str) -> (r: bool)
    ensures
        r == same_origin_spec(a@, b@),
{
    match (parsed_origin(a), parsed_origin(b)) {
        (Some(x), Some(y)) => {
            let hosts = match (&x.1, &y.1) {
                (Some(h), Some(k)) => str_eq(h.as_str(), k.as_str()),
                (None, None) => true,
                _ => false,
            };
            str_eq(x.0.as_str(), y.0.as_str()) && hosts && x.2 == y.2
        },
        _ => false,
    }
}

/// How many redirects one request may follow.
pub const MAX_REDIRECTS: usize = 10;

/// What the client does with a redirect.
#[derive(Debug, Clone, Copy, PartialEq, Eq)]
pub enum RedirectStep {
    /// Follow it: it stays on the configured origin.
    Follow,
    /// Stop, and hand the redirect response back: it leaves the origin.
    Stop,
    /// Fail the request: it has already followed the most it may.
    TooMany,
}

/// The redirect rule: after `followed` redirects, a hop to `target` is
/// refused once the bound is reached; otherwise it is followed only where it
/// stays on the configured origin.
pub open spec fn redirect_step_spec(followed: nat, target: Seq<char>, endpoint: Seq<char>) -> RedirectStep {
    if followed >= MAX_REDIRECTS {
        RedirectStep::TooMany
    } else if same_origin_spec(target, endpoint) {
        RedirectStep::Follow
    } else {
        RedirectStep::Stop
    }
}

/// Decides a redirect to `target` after `followed` earlier ones.
pub fn redirect_step(followed: usize, target: &str, endpoint: &str) -> (r: RedirectStep)
    ensures
        r == redirect_step_spec(followed as nat, target@, endpoint@),
{
    if followed >= MAX_REDIRECTS {
        RedirectStep::TooMany
    } else if same_origin(target, endpoint) {
        RedirectStep::Follow
    } else {
        RedirectStep::Stop
    }
}

/// A redirect is never followed off the configured origin, however few
/// came before it.
pub proof fn law_redirects_never_leave_the_origin(followed: nat, target: Seq<char>, endpoint: Seq<char>)
    requires
        !same_origin_spec(target, endpoint),
    ensures
        redirect_step_spec(followed, target, endpoint) != RedirectStep::Follow,
{
}

/// The read identity a request carries: the per-call one when the call
/// named one, the client's otherwise; trimmed.
pub open spec fn chosen_identity(override_token: Option<Seq<char>>, configured: Option<Seq<char>>) -> Seq<char> {
    match override_token {
        Some(t) => trim(t),
        None => match configured {
            Some(t) => trim(t),
            None => Seq::empty(),
        },
    }
}

/// What stamping the read identity on a request to `url` comes to: nothing
/// for an empty identity, or for a request leaving the configured origin;
/// a refusal for an identity that cannot be a header value; the identity
/// otherwise. The token is never in the refusal.
pub open spec fn stamp_outcome(token: Seq<char>, url: Seq<char>, endpoint: Seq<char>, r: Result<Option<String>, AxonFlowError>) -> bool {
    if token.len() == 0 || !same_origin_spec(url, endpoint) {
        r == Ok::<Option<String>, AxonFlowError>(None)
    } else if !admissible_header_value(encode_utf8(token)) {
        r matches Err(AxonFlowError::ConfigError(m)) && m@ == unusable_token_text(first_refused(encode_utf8(token)), encode_utf8(token).len())
    } else {
        r matches Ok(Some(t)) && t@ == token
    }
}

/// The per-user identity is sent to the configured origin and nowhere else:
/// whatever the token, a request to another scheme, host or port carries
/// none, and nothing stops on its account.
pub proof fn law_the_identity_stays_on_the_configured_origin(
    token: Seq<char>,
    url: Seq<char>,
    endpoint: Seq<char>,
    r: Result<Option<String>, AxonFlowError>,
)
    requires
        stamp_outcome(token, url, endpoint, r),
        !same_origin_spec(url, endpoint),
    ensures
        r == Ok::<Option<String>, AxonFlowError>(None),
{
}

/// A per-call identity, even an empty one, replaces the client's: a call
/// that deliberately names an empty identity is not read under the client's.
pub proof fn law_a_per_call_identity_replaces_the_clients(
    override_token: Seq<char>,
    configured: Option<Seq<char>>,
)
    ensures
        chosen_identity(Some(override_token), configured) == trim(override_token),
{
}

/// The `X-User-Token` value for a request to `url`, when one is sent.
pub fn identity_to_stamp(override_token: Option<&str>, configured: Option<&str>, url: &str, endpoint: &str) -> (r: Result<Option<String>, AxonFlowError>)
    ensures
        stamp_outcome(
            chosen_identity(
                match override_token {
                    Some(t) => Some(t@),
                    None => None,
                },
                match configured {
                    Some(t) => Some(t@),
                    None => None,
                },
            ),
            url@,
            endpoint@,
            r,
        ),
{
    let raw = match override_token {
        Some(t) => t,
        None => match configured {
            Some(t) => t,
            None => "",
        },
    };
    proof {
        reveal_strlit("");
        assert(trim(Seq::<char>::empty()) =~= Seq::<char>::empty()) by {
            reveal_with_fuel(crate::text::trim_start, 1);
            reveal_with_fuel(crate::text::trim_end, 1);
        }
    }
    let cs = chars_of(raw);
    let t = trim_chars(cs.as_slice());
    if t.len() == 0 {
        return Ok(None);
    }
    if !same_origin(url, endpoint) {
        return Ok(None);
    }
    let token = string_of(t.as_slice());
    if !header_admissible(token.as_str()) {
        let m = unusable_token(token.as_str());
        return Err(AxonFlowError::ConfigError(m));
    }
    Ok(Some(token))
}

/// The status an executed plan reports when the platform sent none:
/// `completed` only for a successful, unblocked execution, `failed`
/// otherwise; one it did send is kept.
pub fn plan_status(status: String, success: bool, blocked: bool) -> (r: String)
    ensures
        status@.len() > 0 ==> r == status,
        status@.len() == 0 && success && !blocked ==> r@ == "completed"@,
        status@.len() == 0 && !(success && !blocked) ==> r@ == "failed"@,
{
    if !status.as_str().is_empty() {
        status
    } else if success && !blocked {
        owned("completed")
    } else {
        owned("failed")
    }
}

/// The reason a cancellation carries: the caller's, or `user_cancelled`.
pub fn cancel_reason(reason: Option<&str>) -> (r: &str)
    ensures
        match reason {
            Some(t) => r == t,
            None => r@ == "user_cancelled"@,
        },
{
    match reason {
        Some(t) => t,
        None => "user_cancelled",
    }
}

/// The client id an audit record names: the configured one, or the
/// community tenant.
pub fn effective_client_id(client_id: Option<&str>) -> (r: String)
    ensures
        match client_id {
            Some(t) => r@ == t@,
            None => r@ == COMMUNITY_CLIENT_ID@,
        },
{
    match client_id {
        Some(t) => owned(t),
        None => owned(COMMUNITY_CLIENT_ID),
    }
}


/// The error for a connector listing without its `connectors` member.
pub fn missing_connectors_error() -> (e: AxonFlowError)
    ensures
        e matches AxonFlowError::ApiError { status, message } && status == 200 && message@ == "response missing 'connectors' field"@,
{
    AxonFlowError::ApiError { status: 200, message: owned("response missing 'connectors' field") }
}

/// The error for a plan call whose answer carried no data: `empty plan
/// data` for a generated plan, `empty execution data` for an execution.
pub fn empty_plan_data_error(execution: bool) -> (e: AxonFlowError)
    ensures
        e matches AxonFlowError::ApiError { status, message } && status == 500
            && message@ == (if execution { "empty execution data"@ } else { "empty plan data"@ }),
{
    let m = if execution {
        owned("empty execution data")
    } else {
        owned("empty plan data")
    };
    AxonFlowError::ApiError { status: 500, message: m }
}

} // verus!
