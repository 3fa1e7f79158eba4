//! AuthZEN-native authorization: building an evaluation request, refusing
//! one that carries an unresolved attribute, and reading a decision that
//! can be acted on.
//!
//! The server refuses anything it cannot evaluate rather than evaluating
//! around it, and this module holds the same line on its own side of the
//! wire: an attribute the caller could not resolve never reaches the server,
//! and a response this build could not read completely never becomes a
//! decision.

pub mod attribute;
pub mod types;

use vstd::prelude::*;
use crate::authzen::attribute::{law_an_unresolved_attribute_is_refused, nested_lookup, Attribute, AttributeMap, AttributeValue, JsonLeaf};
use crate::authzen::types::{
    envelope_fault, AuthZenAction, AuthZenEnvelope, AuthZenApprovalRequirement, AuthZenBulk, AuthZenCategory, AuthZenError,
    AuthZenErrorCode, AuthZenObligation, AuthZenOperationalState, AuthZenReasonCode,
    AuthZenRequest, AuthZenResource, AuthZenResponse, AuthZenResponseContext, AuthZenSubject,
    context_fault, fault_text, lemma_refusal_text, refuses_for, response_fault, AUTHZEN_PROFILE_V1,
};
use crate::error::{spec_is_retryable, AxonFlowError};
use crate::text::{append, owned, str_eq, lossy_text, utf8_lossy};

verus! {

/// The AuthZEN evaluation endpoint.
pub const AUTHZEN_PATH: &'static str = "/api/v1/access/evaluation";

/// The header that negotiates the AxonFlow profile. The client always sends
/// it with [`AUTHZEN_PROFILE_V1`].
pub const AUTHZEN_PROFILE_HEADER: &'static str = "X-Axonflow-AuthZEN-Profile";

/// Everything that can come back instead of a decision, separated by what a
/// caller should DO.
#[derive(Debug)]
pub enum AuthZenEvaluationError {
    /// The request was refused rather than evaluated: fix the request.
    Refused(AuthZenError),
    /// The server answered in a profile this build cannot interpret: upgrade.
    UnreadableProfile { received: String, understood: &'static str },
    /// The server answered `200` with a body this build will not act on.
    UnusableResponse { detail: String },
    /// The request carries an attribute the caller could not resolve:
    /// re-resolve it and build a NEW request.
    Unresolved { pointer: String, reason: String },
    /// The envelope could not be encoded.
    UnusableRequest { detail: String },
    /// The request never got an answer.
    Transport(AxonFlowError),
}

/// Whether sending the same request again could produce a different answer.
pub open spec fn evaluation_retryable(e: &AuthZenEvaluationError) -> bool {
    match e {
        AuthZenEvaluationError::Refused(r) => r.code is EvaluationUnavailable,
        AuthZenEvaluationError::Transport(t) => spec_is_retryable(t),
        _ => false,
    }
}

impl AuthZenEvaluationError {
    /// Whether sending the same request again could produce a different
    /// answer: a refusal only when its code is `evaluation_unavailable`, a
    /// transport failure when it is retryable, anything else never.
    pub fn retryable(&self) -> (r: bool)
        ensures
            r == evaluation_retryable(self),
    {
        match self {
            AuthZenEvaluationError::Refused(e) => e.retryable(),
            AuthZenEvaluationError::Transport(e) => e.is_retryable(),
            AuthZenEvaluationError::UnreadableProfile { .. }
            | AuthZenEvaluationError::UnusableResponse { .. }
            | AuthZenEvaluationError::Unresolved { .. }
            | AuthZenEvaluationError::UnusableRequest { .. } => false,
        }
    }

    /// The typed refusal, when there is one.
    pub fn as_refusal(&self) -> (r: Option<&AuthZenError>)
        ensures
            match self {
                AuthZenEvaluationError::Refused(e) => r == Some(e),
                _ => r is None,
            },
    {
        match self {
            AuthZenEvaluationError::Refused(e) => Some(e),
            _ => None,
        }
    }
}

/// Whether `r` is what a LOCAL refusal `e` comes to: an unresolved
/// attribute for `evaluation_unavailable` (pointer and message carried over),
/// the refusal itself for any other code.
pub open spec fn is_local_outcome(e: AuthZenError, r: AuthZenEvaluationError) -> bool {
    if e.code is EvaluationUnavailable {
        &&& r is Unresolved
        &&& r->pointer@ == match e.pointer {
            Some(p) => p@,
            None => Seq::empty(),
        }
        &&& r->reason@ == e.message@
    } else {
        r == AuthZenEvaluationError::Refused(e)
    }
}

/// Maps a LOCAL validation refusal onto the outcome the caller needs.
/// Produced locally, `evaluation_unavailable` means an attribute was never
/// resolved, and resending the identical request reproduces the identical
/// refusal, so it is reported as unresolved rather than as the server's
/// retryable code.
pub fn local_refusal(refusal: AuthZenError) -> (r: AuthZenEvaluationError)
    ensures
        is_local_outcome(refusal, r),
        !evaluation_retryable(&r),
{
    if refusal.code.retryable() {
        let pointer = match &refusal.pointer {
            Some(p) => p.clone(),
            None => String::new(),
        };
        proof {
            reveal_strlit("");
        }
        return AuthZenEvaluationError::Unresolved { pointer, reason: refusal.message };
    }
    AuthZenEvaluationError::Refused(refusal)
}

/// A local refusal is never retryable: whatever the refusal, what the caller
/// is handed for it says that resending the same request cannot help.
pub proof fn law_local_refusals_are_never_retryable(e: AuthZenError, r: AuthZenEvaluationError)
    requires
        is_local_outcome(e, r),
    ensures
        !evaluation_retryable(&r),
{
}

/// An attribute nobody could resolve never reaches the wire: an envelope
/// whose request context holds one has a fault, so `check_envelope` refuses
/// it before the round trip, with a refusal that is not retryable.
pub proof fn law_an_unresolved_context_is_refused_locally(e: AuthZenEnvelope, key: Seq<char>)
    requires
        e.evaluation is Some,
        e.evaluations is None,
        e.evaluation->Some_0.context.lookup(key) matches Some(a) && a is Unknown,
    ensures
        envelope_fault(e, Seq::empty()) is Some,
{
    let r = e.evaluation->Some_0;
    law_an_unresolved_attribute_is_refused(r.context, key, Seq::<char>::empty() + "/context"@);
}

/// Whether `v` is the string attribute `a` as an attribute value, in the
/// same state.
pub open spec fn lifted(a: Attribute<String>, v: Attribute<AttributeValue>) -> bool {
    match a {
        Attribute::Known(s) => v is Known && v->Known_0.spec_leaf() == Some(JsonLeaf::Str(s)),
        Attribute::Absent => v is Absent,
        Attribute::Unknown(why) => v == Attribute::<AttributeValue>::Unknown(why),
    }
}

fn lift(a: Attribute<String>) -> (r: Attribute<AttributeValue>)
    ensures
        lifted(a, r),
{
    match a {
        Attribute::Known(s) => Attribute::Known(AttributeValue::from_string(s)),
        Attribute::Absent => Attribute::Absent,
        Attribute::Unknown(why) => Attribute::Unknown(why),
    }
}


/// What writing `value` at `parent.key` does to a bag: nothing at all over an
/// unresolved `parent`; otherwise `parent` becomes a nested bag that keeps
/// every other member it had, and holds `value` at `key` unless an unresolved
/// attribute was already there, which stays.
pub open spec fn nested_write(before: AttributeMap, after: AttributeMap, parent: Seq<char>, key: Seq<char>, value: Attribute<String>) -> bool {
    let base = before.lookup(parent);
    &&& forall|k: Seq<char>| k != parent ==> after.lookup(k) == before.lookup(k)
    &&& if base matches Some(a) && a is Unknown {
        after.lookup(parent) == base
    } else {
        &&& after.lookup(parent) matches Some(a) && a is Known && a->Known_0.spec_nested() is Some
        &&& {
            let bag = after.lookup(parent)->Some_0->Known_0.spec_nested()->Some_0;
            &&& if nested_lookup(base, key) matches Some(b) && b is Unknown {
                bag.lookup(key) == nested_lookup(base, key)
            } else {
                bag.lookup(key) matches Some(x) && lifted(value, x)
            }
            &&& forall|k: Seq<char>| k != key ==> bag.lookup(k) == nested_lookup(base, k)
        }
    }
}

/// The bag `nested_write` leaves at `parent`, when it leaves one.
pub open spec fn written_bag(after: AttributeMap, parent: Seq<char>) -> AttributeMap {
    after.lookup(parent)->Some_0->Known_0.spec_nested()->Some_0
}

/// One nested write, wherever it is made: from the same context, two writes
/// of the same value at `parent.key` read the same at every member, and at
/// every member of the bag at `parent`. So a bulk's shared `with_query` (or
/// `with_correlation`) writes exactly what a single request's does, declining
/// over the same unresolved attributes.
pub proof fn law_a_nested_write_is_one_write(
    before: AttributeMap,
    a: AttributeMap,
    b: AttributeMap,
    parent: Seq<char>,
    key: Seq<char>,
    value: Attribute<String>,
)
    requires
        nested_write(before, a, parent, key, value),
        nested_write(before, b, parent, key, value),
    ensures
        forall|k: Seq<char>| k != parent ==> a.lookup(k) == b.lookup(k),
        (before.lookup(parent) matches Some(x) && x is Unknown) ==> a.lookup(parent) == b.lookup(parent),
        !(before.lookup(parent) matches Some(x) && x is Unknown) ==> forall|k: Seq<char>|
            written_bag(a, parent).lookup(k) == #[trigger] written_bag(b, parent).lookup(k),
{
    let base = before.lookup(parent);
    if !(base matches Some(x) && x is Unknown) {
        let ba = written_bag(a, parent);
        let bb = written_bag(b, parent);
        if !(nested_lookup(base, key) matches Some(y) && y is Unknown) {
            let xa = ba.lookup(key)->Some_0;
            let xb = bb.lookup(key)->Some_0;
            match value {
                Attribute::Known(s) => {
                    xa->Known_0.lemma_leaf_determines(xb->Known_0);
                },
                _ => {},
            }
            assert(ba.lookup(key) == bb.lookup(key));
        }
        assert forall|k: Seq<char>| ba.lookup(k) == #[trigger] bb.lookup(k) by {
            if k != key {
                assert(ba.lookup(k) == nested_lookup(base, k));
            }
        }
    }
}

/// Writes `context.args.query`, declining over an unresolved `args` or
/// `args.query`.
fn set_query(context: &mut AttributeMap, query: Attribute<String>)
    ensures
        nested_write(*old(context), *final(context), "args"@, "query"@, query),
{
    let v = lift(query);
    let _ = context.record_nested("args", "query", v);
}

/// Writes `context.correlation.<key>`, declining over an unresolved
/// `correlation` or `correlation.<key>`.
fn set_correlation(context: &mut AttributeMap, key: &str, value: Attribute<String>)
    ensures
        nested_write(*old(context), *final(context), "correlation"@, key@, value),
{
    let v = lift(value);
    let _ = context.record_nested("correlation", key, v);
}

impl AuthZenRequest {
    /// One subject performing one action on one resource, with an empty
    /// context.
    pub fn evaluating(subject: AuthZenSubject, action: AuthZenAction, resource: AuthZenResource) -> (r: Self)
        ensures
            r.subject == Some(subject),
            r.action == Some(action),
            r.resource == Some(resource),
            r.context.members().len() == 0,
    {
        AuthZenRequest { subject: Some(subject), action: Some(action), resource: Some(resource), context: AttributeMap::new() }
    }

    /// The content the policy engine inspects, at `context.args.query`. A
    /// write over an unresolved attribute is declined.
    pub fn with_query(self, query: Attribute<String>) -> (r: Self)
        ensures
            r.subject == self.subject,
            r.action == self.action,
            r.resource == self.resource,
            nested_write(self.context, r.context, "args"@, "query"@, query),
    {
        let mut r = self;
        set_query(&mut r.context, query);
        r
    }

    /// One audit correlation key, at `context.correlation.<key>`. A write
    /// over an unresolved attribute is declined.
    pub fn with_correlation(self, key: &str, value: Attribute<String>) -> (r: Self)
        ensures
            r.subject == self.subject,
            r.action == self.action,
            r.resource == self.resource,
            nested_write(self.context, r.context, "correlation"@, key@, value),
    {
        let mut r = self;
        set_correlation(&mut r.context, key, value);
        r
    }
}

impl AuthZenBulk {
    /// Several preconditions of ONE operation.
    pub fn over(evaluations: Vec<AuthZenRequest>) -> (b: Self)
        ensures
            b.subject is None,
            b.action is None,
            b.resource is None,
            b.context.members().len() == 0,
            b.evaluations == evaluations,
    {
        AuthZenBulk::new(evaluations)
    }

    /// The subject every entry inherits unless it names its own.
    pub fn with_subject(self, subject: AuthZenSubject) -> (b: Self)
        ensures
            b.subject == Some(subject),
            b.action == self.action,
            b.resource == self.resource,
            b.context == self.context,
            b.evaluations == self.evaluations,
    {
        let mut b = self;
        b.subject = Some(subject);
        b
    }

    /// The action every entry inherits unless it names its own.
    pub fn with_action(self, action: AuthZenAction) -> (b: Self)
        ensures
            b.subject == self.subject,
            b.action == Some(action),
            b.resource == self.resource,
            b.context == self.context,
            b.evaluations == self.evaluations,
    {
        let mut b = self;
        b.action = Some(action);
        b
    }

    /// The resource every entry inherits unless it names its own.
    pub fn with_resource(self, resource: AuthZenResource) -> (b: Self)
        ensures
            b.subject == self.subject,
            b.action == self.action,
            b.resource == Some(resource),
            b.context == self.context,
            b.evaluations == self.evaluations,
    {
        let mut b = self;
        b.resource = Some(resource);
        b
    }

    /// The shared `context.args.query` every entry inherits.
    pub fn with_query(self, query: Attribute<String>) -> (b: Self)
        ensures
            b.subject == self.subject,
            b.action == self.action,
            b.resource == self.resource,
            b.evaluations == self.evaluations,
            nested_write(self.context, b.context, "args"@, "query"@, query),
    {
        let mut b = self;
        set_query(&mut b.context, query);
        b
    }

    /// A shared audit correlation key.
    pub fn with_correlation(self, key: &str, value: Attribute<String>) -> (b: Self)
        ensures
            b.subject == self.subject,
            b.action == self.action,
            b.resource == self.resource,
            b.evaluations == self.evaluations,
            nested_write(self.context, b.context, "correlation"@, key@, value),
    {
        let mut b = self;
        set_correlation(&mut b.context, key, value);
        b
    }
}

/// Whether a profile payload hangs together well enough to be acted on: it
/// is in the profile this build reads, it has no fault, and its boolean and
/// state are one outcome.
pub open spec fn readable(decision: bool, c: AuthZenResponseContext) -> bool {
    &&& c.profile@ == AUTHZEN_PROFILE_V1@
    &&& context_fault(c, "/context"@) is None
    &&& decision == (c.state is Allow)
}

/// A decision this build could read COMPLETELY.
#[derive(Debug, PartialEq)]
pub struct AuthZenDecision {
    decision: bool,
    context: AuthZenResponseContext,
}

/// The detail for a response with no profile payload.
pub open spec fn no_payload_detail() -> Seq<char> {
    "the response carries no profile payload, though this request negotiated "@ + AUTHZEN_PROFILE_HEADER@ + ": "@
        + AUTHZEN_PROFILE_V1@
        + ". The obligations and the approval challenge ride in that payload, so an allow cannot be distinguished from an allow this client must not act on"@
}

/// The detail for a response whose boolean and state disagree.
pub open spec fn disagreement_detail(decision: bool, state: AuthZenOperationalState) -> Seq<char> {
    "the decision boolean is "@ + (if decision { "true"@ } else { "false"@ }) + " but the operational state is "@
        + state.wire()
        + "; the contract makes them one outcome, so a body where they disagree cannot be acted on"@
}

/// What a decoded response comes to.
pub open spec fn response_outcome(response: AuthZenResponse, r: Result<AuthZenDecision, AuthZenEvaluationError>) -> bool {
    match response.context {
        None => r matches Err(AuthZenEvaluationError::UnusableResponse { detail }) && detail@ == no_payload_detail(),
        Some(c) => if c.profile@ != AUTHZEN_PROFILE_V1@ {
            r matches Err(AuthZenEvaluationError::UnreadableProfile { received, understood }) && received == c.profile
                && understood@ == AUTHZEN_PROFILE_V1@
        } else if context_fault(c, "/context"@) is Some {
            r matches Err(AuthZenEvaluationError::UnusableResponse { detail }) && detail@ == fault_text(context_fault(c, "/context"@)->0)
        } else if response.decision != (c.state is Allow) {
            r matches Err(AuthZenEvaluationError::UnusableResponse { detail }) && detail@ == disagreement_detail(response.decision, c.state)
        } else {
            r matches Ok(d) && d.spec_decision() == response.decision && d.spec_context() == c
        },
    }
}

impl AuthZenDecision {
    #[verifier::type_invariant]
    spec fn wf(self) -> bool {
        readable(self.decision, self.context)
    }

    pub closed spec fn spec_decision(self) -> bool {
        self.decision
    }

    pub closed spec fn spec_context(self) -> AuthZenResponseContext {
        self.context
    }

    /// Whether the enforcement point may proceed: BOTH the boolean and the
    /// operational state say `ALLOW`.
    pub fn allowed(&self) -> (r: bool)
        ensures
            r == (self.spec_decision() && self.spec_context().state is Allow),
            r == (self.spec_context().state is Allow),
    {
        proof {
            use_type_invariant(self);
        }
        self.decision && self.context.state.is_allow()
    }

    /// The four-valued operational state.
    pub fn state(&self) -> (r: &AuthZenOperationalState)
        ensures
            *r == self.spec_context().state,
            readable(self.spec_decision(), self.spec_context()),
    {
        proof {
            use_type_invariant(self);
        }
        &self.context.state
    }

    /// The coarse outcome category.
    pub fn category(&self) -> (r: &AuthZenCategory)
        ensures
            *r == self.spec_context().category,
    {
        &self.context.category
    }

    /// The safe machine reason, when the server sent one.
    pub fn reason(&self) -> (r: Option<&AuthZenReasonCode>)
        ensures
            match self.spec_context().reason {
                Some(x) => r == Some(&x),
                None => r is None,
            },
    {
        match &self.context.reason {
            Some(x) => Some(x),
            None => None,
        }
    }

    /// Every instruction the enforcement point must discharge.
    pub fn obligations(&self) -> (r: &[AuthZenObligation])
        ensures
            r@ == self.spec_context().obligations@,
    {
        self.context.obligations.as_slice()
    }

    /// The obligations that must be discharged for the allow to stand, in
    /// order.
    pub fn mandatory_obligations(&self) -> (r: Vec<&AuthZenObligation>)
        ensures
            r@.map_values(|o: &AuthZenObligation| *o) == self.spec_context().obligations@.filter(|o: AuthZenObligation| o.mandatory),
    {
        let all = self.context.obligations.as_slice();
        let mut r: Vec<&AuthZenObligation> = Vec::new();
        let mut i: usize = 0;
        while i < all.len()
            invariant
                i <= all@.len(),
                all@ == self.spec_context().obligations@,
                r@.map_values(|o: &AuthZenObligation| *o) == all@.subrange(0, i as int).filter(|o: AuthZenObligation| o.mandatory),
            decreases all@.len() - i,
        {
            proof {
                reveal(Seq::filter);
                assert(all@.subrange(0, i + 1).drop_last() =~= all@.subrange(0, i as int));
            }
            let ghost before = r@;
            if all[i].mandatory {
                r.push(&all[i]);
                proof {
                    assert(r@.map_values(|o: &AuthZenObligation| *o) =~= before.map_values(|o: &AuthZenObligation| *o).push(all@[i as int]));
                }
            }
            i += 1;
        }
        proof {
            assert(all@.subrange(0, all@.len() as int) =~= all@);
        }
        r
    }

    /// The approval challenge, when the server sent one.
    pub fn approval(&self) -> (r: Option<&AuthZenApprovalRequirement>)
        ensures
            match self.spec_context().approval {
                Some(x) => r == Some(&x),
                None => r is None,
            },
    {
        match &self.context.approval {
            Some(x) => Some(x),
            None => None,
        }
    }

    /// The id of the entry that DETERMINED the outcome.
    pub fn decision_id(&self) -> (r: &str)
        ensures
            r@ == self.spec_context().decision_id@,
    {
        self.context.decision_id.as_str()
    }

    /// The contract version the server evaluated under.
    pub fn schema_version(&self) -> (r: &str)
        ensures
            r@ == self.spec_context().schema_version@,
    {
        self.context.schema_version.as_str()
    }

    /// The whole profile payload, which is always readable: in this build's
    /// profile, with no fault, its state one outcome with the boolean.
    pub fn context(&self) -> (r: &AuthZenResponseContext)
        ensures
            *r == self.spec_context(),
            readable(self.spec_decision(), self.spec_context()),
    {
        proof {
            use_type_invariant(self);
        }
        &self.context
    }

    /// Checks everything that has to hold before a body becomes a decision:
    /// a profile payload, in this build's profile, with no fault, whose
    /// boolean and state are one outcome.
    pub fn from_response(response: AuthZenResponse) -> (r: Result<Self, AuthZenEvaluationError>)
        ensures
            response_outcome(response, r),
    {
        let decision = response.decision;
        let context = match response.context {
            Some(c) => c,
            None => {
                let mut d = owned("the response carries no profile payload, though this request negotiated ");
                append(&mut d, AUTHZEN_PROFILE_HEADER);
                append(&mut d, ": ");
                append(&mut d, AUTHZEN_PROFILE_V1);
                append(&mut d, ". The obligations and the approval challenge ride in that payload, so an allow cannot be distinguished from an allow this client must not act on");
                return Err(AuthZenEvaluationError::UnusableResponse { detail: d });
            },
        };
        if !str_eq(context.profile.as_str(), AUTHZEN_PROFILE_V1) {
            return Err(AuthZenEvaluationError::UnreadableProfile { received: context.profile, understood: AUTHZEN_PROFILE_V1 });
        }
        match context.validate("/context") {
            Err(e) => {
                proof {
                    lemma_refusal_text(e, context_fault(context, "/context"@)->0);
                }
                return Err(AuthZenEvaluationError::UnusableResponse { detail: e.to_string() });
            },
            Ok(()) => {},
        }
        if context.state.is_allow() != decision {
            let mut d = owned("the decision boolean is ");
            append(&mut d, if decision { "true" } else { "false" });
            append(&mut d, " but the operational state is ");
            append(&mut d, context.state.as_str());
            append(&mut d, "; the contract makes them one outcome, so a body where they disagree cannot be acted on");
            return Err(AuthZenEvaluationError::UnusableResponse { detail: d });
        }
        Ok(AuthZenDecision { decision, context })
    }
}

/// There is no path to an allow this client could not fully read: a
/// response becomes a decision that allows only when it carries a profile
/// payload in this build's profile, with no fault, whose boolean and
/// operational state both say allow.
pub proof fn law_an_allow_is_read_in_full(response: AuthZenResponse, r: Result<AuthZenDecision, AuthZenEvaluationError>)
    requires
        response_outcome(response, r),
        r matches Ok(d) && d.spec_decision(),
    ensures
        response.decision,
        response.context matches Some(c) && c.profile@ == AUTHZEN_PROFILE_V1@ && context_fault(c, "/context"@) is None
            && c.state is Allow,
{
}

/// Whether a non-2xx answer reads as a typed refusal: a usable one (a code
/// and a message), on a `4xx` whatever the code, on any other status only
/// when this build knows the code.
pub open spec fn reads_as_refusal(status: u16, e: AuthZenError) -> bool {
    &&& e.code.wire().len() > 0
    &&& e.message@.len() > 0
    &&& (400 <= status < 500 || !(e.code is Unknown))
}

/// What a non-2xx answer comes to: the refusal its body decodes to when that
/// reads as one, the transport's API error with the body as text otherwise.
/// `parsed` is the body decoded as a refusal, when it decodes.
pub fn failure_outcome(status: u16, parsed: Option<AuthZenError>, raw: &[u8]) -> (r: AuthZenEvaluationError)
    ensures
        match parsed {
            Some(e) if reads_as_refusal(status, e) => r == AuthZenEvaluationError::Refused(e),
            _ => r matches AuthZenEvaluationError::Transport(AxonFlowError::ApiError { status: s, message })
                && s == status && message@ == utf8_lossy(raw@),
        },
{
    match parsed {
        Some(e) => {
            let usable = !e.code.as_str().is_empty() && !e.message.as_str().is_empty();
            let client_error = 400 <= status && status < 500;
            if usable && (client_error || e.code.is_known()) {
                return AuthZenEvaluationError::Refused(e);
            }
        },
        None => {},
    }
    AuthZenEvaluationError::Transport(AxonFlowError::ApiError { status, message: lossy_text(raw) })
}

/// The detail for a success body that does not decode.
pub open spec fn undecodable_detail(error: Seq<char>, raw: Seq<u8>) -> Seq<char> {
    "the decision could not be decoded: "@ + error + "; body="@ + utf8_lossy(raw)
}

/// What a `2xx` answer comes to: the decision its decoded body establishes,
/// or an unusable response when it does not decode. `decoded` is the body
/// decoded strictly, or the decoder's error.
pub fn success_outcome(decoded: Result<AuthZenResponse, String>, raw: &[u8]) -> (r: Result<AuthZenDecision, AuthZenEvaluationError>)
    ensures
        match decoded {
            Ok(response) => response_outcome(response, r),
            Err(error) => r matches Err(AuthZenEvaluationError::UnusableResponse { detail }) && detail@ == undecodable_detail(error@, raw@),
        },
{
    match decoded {
        Ok(response) => AuthZenDecision::from_response(response),
        Err(error) => {
            let mut d = owned("the decision could not be decoded: ");
            append(&mut d, error.as_str());
            append(&mut d, "; body=");
            let body = lossy_text(raw);
            append(&mut d, body.as_str());
            Err(AuthZenEvaluationError::UnusableResponse { detail: d })
        },
    }
}


/// What an envelope comes to before the round trip: nothing when it can be
/// sent, and otherwise the LOCAL refusal for its first fault, as the caller
/// needs it (an unresolved attribute is reported as such, never as the
/// server's retryable code).
pub fn check_envelope(envelope: &AuthZenEnvelope) -> (r: Result<(), AuthZenEvaluationError>)
    ensures
        match envelope_fault(*envelope, Seq::empty()) {
            None => r is Ok,
            Some(f) => r matches Err(e) && !evaluation_retryable(&e)
                && exists|refusal: AuthZenError| #[trigger] refuses_for(refusal, f) && is_local_outcome(refusal, e),
        },
{
    proof {
        reveal_strlit("");
        assert(""@ =~= Seq::<char>::empty());
    }
    match envelope.validate("") {
        Ok(()) => Ok(()),
        Err(refusal) => {
            let ghost given = refusal;
            let e = local_refusal(refusal);
            proof {
                assert(refuses_for(given, envelope_fault(*envelope, Seq::empty())->0));
            }
            Err(e)
        },
    }
}

} // verus!
