//! Typed policy authoring: what a refusal from the six
//! `/api/v1/typed-policies` routes comes to, and the small decisions the
//! client makes around them.

use vstd::prelude::*;
use crate::error::AxonFlowError;
use crate::text::{append, chars_of, decimal, owned, str_eq, to_decimal};

verus! {

/// The route prefix the six operations share.
pub const TYPED_POLICIES_PATH: &'static str = "/api/v1/typed-policies";

/// What this edition may spend.
#[derive(Debug, Clone, Default, PartialEq, Eq)]
pub struct EditionConstructReport {
    pub edition: Option<String>,
    pub obligation_families: Vec<String>,
    pub attribute_namespaces: Vec<String>,
    pub group_scope: Option<bool>,
    pub separation_of_duties: Option<bool>,
    pub tier_established: Option<bool>,
    pub reserved: Vec<String>,
}

/// One declared save-time or publication result.
#[derive(Debug, Clone, PartialEq, Eq)]
pub struct AuthoringFinding {
    pub code: String,
    pub severity: String,
    pub policy_id: Option<String>,
    pub summary: Option<String>,
    pub detail: Option<String>,
}

/// What this deployment may author.
#[derive(Debug, Clone, Default, PartialEq, Eq)]
pub struct TypedAuthoringEdition {
    pub success: bool,
    pub catalog: Option<String>,
    pub root: Option<String>,
    pub max_documents: Option<i64>,
    pub constructs: Option<EditionConstructReport>,
    pub persistence: Option<String>,
    pub signing_key_custody: Option<String>,
}

/// Every finding for a candidate document.
#[derive(Debug, Clone, Default, PartialEq, Eq)]
pub struct TypedPolicyValidation {
    pub success: bool,
    pub findings: Vec<AuthoringFinding>,
}

/// A published artifact. Activation names `digest`, never the version.
#[derive(Debug, Clone, Default, PartialEq, Eq)]
pub struct TypedPolicyPublication {
    pub success: bool,
    pub digest: String,
    pub version: Option<i64>,
    pub findings: Vec<AuthoringFinding>,
}

/// A typed policy authoring request the platform refused.
#[derive(Debug, Clone, PartialEq, Eq)]
pub struct TypedPolicyRefusal {
    pub status: u16,
    pub reason: Option<String>,
    pub code: Option<String>,
    pub message: String,
    pub findings: Vec<AuthoringFinding>,
    pub retry_after: Option<u64>,
}

impl TypedPolicyRefusal {
    /// How the refusal renders: its status, its reason when there is one,
    /// and the message.
    pub open spec fn rendering(&self) -> Seq<char> {
        match self.reason {
            Some(reason) => "typed policy request refused (HTTP "@ + decimal(self.status as nat) + ", "@ + reason@ + "): "@ + self.message@,
            None => "typed policy request refused (HTTP "@ + decimal(self.status as nat) + "): "@ + self.message@,
        }
    }

    /// The rendered refusal.
    pub fn to_string(&self) -> (r: String)
        ensures
            r@ == self.rendering(),
    {
        let mut r = owned("typed policy request refused (HTTP ");
        let d = to_decimal(self.status as u64);
        append(&mut r, d.as_str());
        match &self.reason {
            Some(reason) => {
                append(&mut r, ", ");
                append(&mut r, reason.as_str());
            },
            None => {},
        }
        append(&mut r, "): ");
        append(&mut r, self.message.as_str());
        r
    }
}

/// The members of a refusal body that were JSON strings, and the findings
/// that decoded.
pub struct RefusalBody {
    pub error: Option<String>,
    pub reason: Option<String>,
    pub code: Option<String>,
    pub findings: Vec<AuthoringFinding>,
}

/// A member's text when it is present and non-empty.
pub open spec fn present_text(m: Option<String>) -> Option<Seq<char>> {
    match m {
        Some(s) => if s@.len() > 0 { Some(s@) } else { None },
        None => None,
    }
}

/// The message of a refusal: the platform's own explanation, or
/// `HTTP <status> from <route>` when it gave none.
pub open spec fn refusal_message(error: Option<String>, status: u16, route: Seq<char>) -> Seq<char> {
    match present_text(error) {
        Some(e) => e,
        None => "HTTP "@ + decimal(status as nat) + " from "@ + route,
    }
}

fn present(m: Option<String>) -> (r: Option<String>)
    ensures
        match present_text(m) {
            Some(t) => r is Some && r->Some_0@ == t,
            None => r is None,
        },
{
    match m {
        Some(s) => if s.as_str().is_empty() {
            None
        } else {
            Some(s)
        },
        None => None,
    }
}

/// Whether `e` is the error for a non-2xx answer with `status`,
/// `retry_after` and `body` on `route`: the client's authentication error for
/// a `401`, the typed refusal for everything else.
pub open spec fn refuses_with(e: AxonFlowError, status: u16, retry_after: Option<u64>, body: RefusalBody, route: Seq<char>) -> bool {
    &&& status == 401 ==> (e matches AxonFlowError::ApiError { status: s, message } && s == 401
        && message@ == refusal_message(body.error, status, route))
    &&& status != 401 ==> (e matches AxonFlowError::TypedPolicyRefusal(r) && r.status == status
        && r.message@ == refusal_message(body.error, status, route)
        && r.retry_after == retry_after
        && r.findings == body.findings
        && (match present_text(body.reason) {
            Some(t) => r.reason is Some && r.reason->Some_0@ == t,
            None => r.reason is None,
        })
        && (match present_text(body.code) {
            Some(t) => r.code is Some && r.code->Some_0@ == t,
            None => r.code is None,
        }))
}

/// The error for a non-2xx answer: the client's authentication error for a
/// `401`, the typed refusal for everything else.
pub fn refusal(status: u16, retry_after: Option<u64>, body: RefusalBody, route: &str) -> (e: AxonFlowError)
    ensures
        refuses_with(e, status, retry_after, body, route@),
{
    let message = match present(body.error) {
        Some(m) => m,
        None => {
            let mut m = owned("HTTP ");
            let d = to_decimal(status as u64);
            append(&mut m, d.as_str());
            append(&mut m, " from ");
            append(&mut m, route);
            m
        },
    };
    if status == 401 {
        return AxonFlowError::ApiError { status, message };
    }
    AxonFlowError::TypedPolicyRefusal(
        Box::new(
            TypedPolicyRefusal {
                status,
                reason: present(body.reason),
                code: present(body.code),
                message,
                findings: body.findings,
                retry_after,
            },
        ),
    )
}

/// Whether every character is an ASCII digit.
pub open spec fn all_digits(s: Seq<char>) -> bool {
    forall|i: int| 0 <= i < s.len() ==> '0' <= #[trigger] s[i] && s[i] <= '9'
}

/// The value of a string of decimal digits.
pub open spec fn digits_value(s: Seq<char>) -> nat
    decreases s.len(),
{
    if s.len() == 0 {
        0
    } else {
        digits_value(s.drop_last()) * 10 + ((s.last() as u32) - ('0' as u32)) as nat
    }
}

/// `Retry-After` in seconds, when it is a plain non-negative integer that
/// fits in a `u64`.
pub fn retry_after(header: Option<&str>) -> (r: Option<u64>)
    ensures
        match header {
            Some(h) => if h@.len() > 0 && all_digits(h@) && digits_value(h@) <= u64::MAX {
                r == Some(digits_value(h@) as u64)
            } else {
                r is None
            },
            None => r is None,
        },
{
    let h = match header {
        Some(h) => h,
        None => return None,
    };
    let cs = chars_of(h);
    if cs.len() == 0 {
        return None;
    }
    let mut i: usize = 0;
    let mut value: u64 = 0;
    let mut overflow = false;
    while i < cs.len()
        invariant
            i <= cs@.len(),
            cs@ == h@,
            header == Some(h),
            all_digits(cs@.subrange(0, i as int)),
            !overflow ==> value as nat == digits_value(cs@.subrange(0, i as int)),
            overflow ==> digits_value(cs@.subrange(0, i as int)) > u64::MAX,
        decreases cs@.len() - i,
    {
        let c = cs[i];
        if !('0' <= c && c <= '9') {
            assert(!all_digits(h@)) by {
                assert(h@[i as int] == c);
            }
            return None;
        }
        let d = (c as u32 - '0' as u32) as u64;
        let ghost prefix = cs@.subrange(0, i + 1);
        assert(prefix.drop_last() =~= cs@.subrange(0, i as int));
        if !overflow {
            if value > (u64::MAX - d) / 10 {
                overflow = true;
            } else {
                value = value * 10 + d;
            }
        } else {
            assert(digits_value(prefix) >= digits_value(prefix.drop_last()));
        }
        i += 1;
    }
    assert(cs@.subrange(0, cs@.len() as int) =~= h@);
    if overflow {
        None
    } else {
        Some(value)
    }
}

/// The activation reason that is sent: an empty or absent one is not.
pub fn activation_reason(reason: Option<&str>) -> (r: Option<&str>)
    ensures
        match reason {
            Some(t) => if t@.len() > 0 { r == Some(t) } else { r is None },
            None => r is None,
        },
{
    match reason {
        Some(t) => if t.is_empty() {
            None
        } else {
            Some(t)
        },
        None => None,
    }
}

/// What a route's answer comes to before its body is read as a document:
/// `Ok` for a 2xx whose body is a JSON object, the refusal for a status of
/// 400 or above, and the client's API error for a success that is not an
/// object.
pub fn object_outcome(status: u16, retry_after: Option<u64>, body: RefusalBody, body_is_object: bool, route: &str) -> (r: Result<(), AxonFlowError>)
    ensures
        status >= 400 ==> (r matches Err(e) && refuses_with(e, status, retry_after, body, route@)),
        status < 400 && body_is_object ==> r is Ok,
        status < 400 && !body_is_object ==> (r matches Err(AxonFlowError::ApiError { status: s, message }) && s == status
            && message@ == TYPED_POLICIES_PATH@ + route@ + " answered "@ + decimal(status as nat) + " with a body that is not an object"@),
{
    if status >= 400 {
        return Err(refusal(status, retry_after, body, route));
    }
    if body_is_object {
        Ok(())
    } else {
        let mut m = owned(TYPED_POLICIES_PATH);
        append(&mut m, route);
        append(&mut m, " answered ");
        let d = to_decimal(status as u64);
        append(&mut m, d.as_str());
        append(&mut m, " with a body that is not an object");
        Err(AxonFlowError::ApiError { status, message: m })
    }
}


/// Whether a refusal body names the platform's `nothing_active`.
pub open spec fn names_nothing_active(body: RefusalBody) -> bool {
    present_text(body.reason) == Some("nothing_active"@)
}

/// What the `active` route's answer comes to: `Ok(false)`, nothing active,
/// only for a `404` whose reason is `nothing_active`; any other answer as
/// [`object_outcome`] reads it, with `Ok(true)` for a document in force.
pub fn active_outcome(status: u16, retry_after: Option<u64>, body: RefusalBody, body_is_object: bool) -> (r: Result<bool, AxonFlowError>)
    ensures
        status == 404 && names_nothing_active(body) ==> r == Ok::<bool, AxonFlowError>(false),
        !(status == 404 && names_nothing_active(body)) ==> ({
            &&& status >= 400 ==> (r matches Err(e) && refuses_with(e, status, retry_after, body, "/active"@))
            &&& status < 400 && body_is_object ==> r == Ok::<bool, AxonFlowError>(true)
            &&& status < 400 && !body_is_object ==> (r matches Err(AxonFlowError::ApiError { status: s, message }) && s == status
                && message@ == TYPED_POLICIES_PATH@ + "/active"@ + " answered "@ + decimal(status as nat) + " with a body that is not an object"@)
        }),
{
    let nothing = match &body.reason {
        Some(reason) => str_eq(reason.as_str(), "nothing_active"),
        None => false,
    };
    proof {
        reveal_strlit("nothing_active");
    }
    if status == 404 && nothing {
        return Ok(false);
    }
    match object_outcome(status, retry_after, body, body_is_object, "/active") {
        Ok(()) => Ok(true),
        Err(e) => Err(e),
    }
}

} // verus!
