//! The one error type every client call reports, as plain values.

use vstd::prelude::*;
use crate::read_identity::ReadScopeRefusal;
use crate::typed_policies::TypedPolicyRefusal;
use crate::types::decisions::RateLimitEnvelope;
use crate::text::{append, decimal, owned, str_eq, to_decimal};

verus! {

/// Everything a client call can fail with.
#[derive(Debug)]
pub enum AxonFlowError {
    /// The request never got an answer, or its body could not be read.
    HttpError {
        /// The transport gave up waiting.
        timeout: bool,
        /// No connection could be made.
        connect: bool,
        /// The status, when a response arrived.
        status: Option<u16>,
        message: String,
    },
    /// A body could not be encoded or decoded.
    SerdeError(String),
    /// A non-success status with its body.
    ApiError { status: u16, message: String },
    /// A tier-cap 429 with a parsed upgrade envelope.
    RateLimited { envelope: Box<RateLimitEnvelope> },
    /// A role-scoped read whose answer was decided by the caller's identity
    /// scope rather than by the data.
    ReadScope(Box<ReadScopeRefusal>),
    /// The client was configured in a way it cannot work with.
    ConfigError(String),
    /// The platform is unavailable.
    Unavailable(String),
    /// A `redact_pii` obligation could not be discharged through the engine;
    /// the caller MUST block.
    ObligationNotFulfillable(String),
    /// A typed policy authoring request the platform refused.
    TypedPolicyRefusal(Box<TypedPolicyRefusal>),
}

/// Which errors a retry could change.
pub open spec fn spec_is_retryable(e: &AxonFlowError) -> bool {
    match e {
        AxonFlowError::HttpError { timeout, connect, .. } => *timeout || *connect,
        AxonFlowError::ApiError { status, .. } => *status >= 500 || *status == 429,
        AxonFlowError::RateLimited { .. } => true,
        AxonFlowError::Unavailable(_) => true,
        AxonFlowError::TypedPolicyRefusal(r) => r.retry_after is Some,
        _ => false,
    }
}

impl AxonFlowError {
    /// Whether sending the same request again could succeed: a timeout, a
    /// failed connection, a `5xx` or `429`, a tier cap, an unavailable
    /// platform, or a typed policy refusal that carried a `Retry-After`
    /// (which follows the platform's header, not the status alone).
    pub fn is_retryable(&self) -> (r: bool)
        ensures
            r == spec_is_retryable(self),
    {
        match self {
            AxonFlowError::HttpError { timeout, connect, .. } => *timeout || *connect,
            AxonFlowError::ApiError { status, .. } => *status >= 500 || *status == 429,
            AxonFlowError::RateLimited { .. } => true,
            AxonFlowError::Unavailable(_) => true,
            AxonFlowError::TypedPolicyRefusal(r) => r.retry_after.is_some(),
            _ => false,
        }
    }

    /// Whether this error should trigger fail-open. Currently identical to
    /// [`AxonFlowError::is_retryable`].
    pub fn is_fail_open_eligible(&self) -> (r: bool)
        ensures
            r == spec_is_retryable(self),
    {
        self.is_retryable()
    }
}


/// A platform answer is worth retrying, and so fails open in production,
/// exactly when it is a server error or a throttle: every status from 500
/// to 599 (and beyond) and 429 are retryable; any other status is not.
pub proof fn law_every_server_error_and_throttle_is_retryable(status: u16, message: String)
    ensures
        500 <= status <= 599 ==> spec_is_retryable(&AxonFlowError::ApiError { status, message }),
        status >= 500 ==> spec_is_retryable(&AxonFlowError::ApiError { status, message }),
        status == 429 ==> spec_is_retryable(&AxonFlowError::ApiError { status, message }),
        status < 500 && status != 429 ==> !spec_is_retryable(&AxonFlowError::ApiError { status, message }),
{
}

/// A transport failure is worth retrying exactly when it timed out or could
/// not connect; a refused configuration, a bad body or an unfulfillable
/// obligation never is.
pub proof fn law_transport_failures_retry_only_on_timeout_or_connect(timeout: bool, connect: bool, status: Option<u16>, message: String)
    ensures
        spec_is_retryable(&AxonFlowError::HttpError { timeout, connect, status, message }) == (timeout || connect),
        !spec_is_retryable(&AxonFlowError::ConfigError(message)),
        !spec_is_retryable(&AxonFlowError::SerdeError(message)),
        !spec_is_retryable(&AxonFlowError::ObligationNotFulfillable(message)),
        spec_is_retryable(&AxonFlowError::Unavailable(message)),
{
}

/// How an error renders.
pub open spec fn error_text(e: &AxonFlowError) -> Seq<char> {
    match e {
        AxonFlowError::HttpError { message, .. } => "HTTP request failed: "@ + message@,
        AxonFlowError::SerdeError(m) => "Serialization/Deserialization failed: "@ + m@,
        AxonFlowError::ApiError { status, message } => "API error ("@ + decimal(*status as nat) + "): "@ + message@,
        AxonFlowError::RateLimited { envelope } => "Rate limited (tier="@ + envelope.tier@ + ", limit_type="@
            + envelope.limit_type@ + "): "@ + envelope.error@,
        AxonFlowError::ReadScope(r) => r.rendering(),
        AxonFlowError::ConfigError(m) => "Configuration error: "@ + m@,
        AxonFlowError::Unavailable(m) => "AxonFlow platform is unavailable: "@ + m@,
        AxonFlowError::ObligationNotFulfillable(m) => "Obligation not engine-fulfillable: "@ + m@,
        AxonFlowError::TypedPolicyRefusal(r) => r.rendering(),
    }
}

impl AxonFlowError {
    /// The rendered error.
    pub fn to_string(&self) -> (r: String)
        ensures
            r@ == error_text(self),
    {
        match self {
            AxonFlowError::HttpError { message, .. } => {
                let mut r = owned("HTTP request failed: ");
                append(&mut r, message.as_str());
                r
            },
            AxonFlowError::SerdeError(m) => {
                let mut r = owned("Serialization/Deserialization failed: ");
                append(&mut r, m.as_str());
                r
            },
            AxonFlowError::ApiError { status, message } => {
                let mut r = owned("API error (");
                let d = to_decimal(*status as u64);
                append(&mut r, d.as_str());
                append(&mut r, "): ");
                append(&mut r, message.as_str());
                r
            },
            AxonFlowError::RateLimited { envelope } => {
                let mut r = owned("Rate limited (tier=");
                append(&mut r, envelope.tier.as_str());
                append(&mut r, ", limit_type=");
                append(&mut r, envelope.limit_type.as_str());
                append(&mut r, "): ");
                append(&mut r, envelope.error.as_str());
                r
            },
            AxonFlowError::ReadScope(r) => r.to_string(),
            AxonFlowError::ConfigError(m) => {
                let mut r = owned("Configuration error: ");
                append(&mut r, m.as_str());
                r
            },
            AxonFlowError::Unavailable(m) => {
                let mut r = owned("AxonFlow platform is unavailable: ");
                append(&mut r, m.as_str());
                r
            },
            AxonFlowError::ObligationNotFulfillable(m) => {
                let mut r = owned("Obligation not engine-fulfillable: ");
                append(&mut r, m.as_str());
                r
            },
            AxonFlowError::TypedPolicyRefusal(r) => r.to_string(),
        }
    }
}


/// Whether two tier-cap envelopes carry the same text and numbers.
pub open spec fn same_envelope(a: RateLimitEnvelope, b: RateLimitEnvelope) -> bool {
    &&& a.error@ == b.error@
    &&& a.limit_type@ == b.limit_type@
    &&& a.tier@ == b.tier@
    &&& a.limit == b.limit
    &&& a.remaining == b.remaining
    &&& a.upgrade.tier@ == b.upgrade.tier@
    &&& a.upgrade.wording@ == b.upgrade.wording@
    &&& a.upgrade.compare_url@ == b.upgrade.compare_url@
    &&& a.upgrade.buy_url@ == b.upgrade.buy_url@
}

/// When two errors compare equal: a transport failure by its flags, status
/// and text; a codec failure, a configuration error and an unavailable
/// platform by their text; an API error by status and body; a tier cap by its
/// envelope. Errors of any other kind never compare equal, not even to
/// themselves.
pub open spec fn same_error(a: &AxonFlowError, b: &AxonFlowError) -> bool {
    match (a, b) {
        (
            AxonFlowError::HttpError { timeout: t1, connect: c1, status: s1, message: m1 },
            AxonFlowError::HttpError { timeout: t2, connect: c2, status: s2, message: m2 },
        ) => t1 == t2 && c1 == c2 && s1 == s2 && m1@ == m2@,
        (AxonFlowError::SerdeError(m1), AxonFlowError::SerdeError(m2)) => m1@ == m2@,
        (AxonFlowError::ApiError { status: s1, message: m1 }, AxonFlowError::ApiError { status: s2, message: m2 }) => s1
            == s2 && m1@ == m2@,
        (AxonFlowError::RateLimited { envelope: e1 }, AxonFlowError::RateLimited { envelope: e2 }) => same_envelope(**e1, **e2),
        (AxonFlowError::ConfigError(m1), AxonFlowError::ConfigError(m2)) => m1@ == m2@,
        (AxonFlowError::Unavailable(m1), AxonFlowError::Unavailable(m2)) => m1@ == m2@,
        _ => false,
    }
}

fn same_text(a: &String, b: &String) -> (r: bool)
    ensures
        r == (a@ == b@),
{
    str_eq(a.as_str(), b.as_str())
}

fn same_envelope_exec(a: &RateLimitEnvelope, b: &RateLimitEnvelope) -> (r: bool)
    ensures
        r == same_envelope(*a, *b),
{
    same_text(&a.error, &b.error) && same_text(&a.limit_type, &b.limit_type) && same_text(&a.tier, &b.tier)
        && a.limit == b.limit && a.remaining == b.remaining && same_text(&a.upgrade.tier, &b.upgrade.tier)
        && same_text(&a.upgrade.wording, &b.upgrade.wording) && same_text(&a.upgrade.compare_url, &b.upgrade.compare_url)
        && same_text(&a.upgrade.buy_url, &b.upgrade.buy_url)
}

impl PartialEq for AxonFlowError {
    fn eq(&self, other: &Self) -> (r: bool) {
        match (self, other) {
            (
                AxonFlowError::HttpError { timeout: t1, connect: c1, status: s1, message: m1 },
                AxonFlowError::HttpError { timeout: t2, connect: c2, status: s2, message: m2 },
            ) => *t1 == *t2 && *c1 == *c2 && *s1 == *s2 && same_text(m1, m2),
            (AxonFlowError::SerdeError(m1), AxonFlowError::SerdeError(m2)) => same_text(m1, m2),
            (AxonFlowError::ApiError { status: s1, message: m1 }, AxonFlowError::ApiError { status: s2, message: m2 }) => *s1
                == *s2 && same_text(m1, m2),
            (AxonFlowError::RateLimited { envelope: e1 }, AxonFlowError::RateLimited { envelope: e2 }) => same_envelope_exec(e1, e2),
            (AxonFlowError::ConfigError(m1), AxonFlowError::ConfigError(m2)) => same_text(m1, m2),
            (AxonFlowError::Unavailable(m1), AxonFlowError::Unavailable(m2)) => same_text(m1, m2),
            _ => false,
        }
    }
}

impl vstd::std_specs::cmp::PartialEqSpecImpl for AxonFlowError {
    open spec fn obeys_eq_spec() -> bool {
        true
    }

    open spec fn eq_spec(&self, other: &AxonFlowError) -> bool {
        same_error(self, other)
    }
}

} // verus!
