//! The AuthZEN wire vocabulary: codes, states, categories and obligation
//! types, each an open set that carries an unrecognised value verbatim.

use vstd::prelude::*;
use crate::authzen::attribute::{first_unresolved, is_unresolved_refusal, unresolved_message, AttributeMap};
use crate::text::{append, decimal, owned, str_eq, to_decimal};

verus! {

/// An obligation type the platform can issue.
#[derive(Clone, Debug, PartialEq, Eq)]
pub enum AuthZenObligationType {
    ApprovalChallenge,
    FieldAnnotate,
    FieldHash,
    FieldMask,
    FieldRedact,
    FieldRemove,
    FieldTokenize,
    ImmutableAudit,
    Notification,
    QuotaReservation,
    ResponseFilter,
    RouteRestriction,
    SchemaTransform,
    StepUpAuthentication,
    /// A type this build does not know, carried verbatim.
    Unknown(String),
}

/// Every obligation type this build knows, by its wire value.
pub open spec fn known_obligation_type(s: Seq<char>) -> bool {
    ||| s == "approval_challenge"@
    ||| s == "field_annotate"@
    ||| s == "field_hash"@
    ||| s == "field_mask"@
    ||| s == "field_redact"@
    ||| s == "field_remove"@
    ||| s == "field_tokenize"@
    ||| s == "immutable_audit"@
    ||| s == "notification"@
    ||| s == "quota_reservation"@
    ||| s == "response_filter"@
    ||| s == "route_restriction"@
    ||| s == "schema_transform"@
    ||| s == "step_up_authentication"@
}

/// The known obligation types as `format!("{:?}", KNOWN_WIRE_VALUES)`
/// renders them.
pub const KNOWN_OBLIGATION_TYPES_RENDERED: &'static str = "[\"approval_challenge\", \"field_annotate\", \"field_hash\", \"field_mask\", \"field_redact\", \"field_remove\", \"field_tokenize\", \"immutable_audit\", \"notification\", \"quota_reservation\", \"response_filter\", \"route_restriction\", \"schema_transform\", \"step_up_authentication\"]";

impl AuthZenObligationType {
    /// Every wire value this build knows.
    pub const KNOWN_WIRE_VALUES: [&'static str; 14] = [
        "approval_challenge",
        "field_annotate",
        "field_hash",
        "field_mask",
        "field_redact",
        "field_remove",
        "field_tokenize",
        "immutable_audit",
        "notification",
        "quota_reservation",
        "response_filter",
        "route_restriction",
        "schema_transform",
        "step_up_authentication",
    ];

    /// Whether `s` is a wire value this build knows.
    pub fn is_known_wire_value(s: &str) -> (r: bool)
        ensures
            r == known_obligation_type(s@),
    {
        str_eq(s, "approval_challenge") || str_eq(s, "field_annotate") || str_eq(s, "field_hash")
            || str_eq(s, "field_mask") || str_eq(s, "field_redact") || str_eq(s, "field_remove")
            || str_eq(s, "field_tokenize") || str_eq(s, "immutable_audit") || str_eq(
            s,
            "notification",
        ) || str_eq(s, "quota_reservation") || str_eq(s, "response_filter") || str_eq(
            s,
            "route_restriction",
        ) || str_eq(s, "schema_transform") || str_eq(s, "step_up_authentication")
    }
}

/// The machine code of a refusal.
#[derive(Clone, Debug, PartialEq, Eq)]
pub enum AuthZenErrorCode {
    /// A member the evaluation needs is missing.
    IncompleteEvaluation,
    /// The subject is not one this deployment can evaluate.
    UnsupportedSubject,
    /// The action is not one this deployment can evaluate.
    UnsupportedAction,
    /// The resource is not one this deployment can evaluate.
    UnsupportedResource,
    /// A context member is not one this deployment records.
    UnsupportedContext,
    /// The evaluator could not be reached; the same request may be sent again.
    EvaluationUnavailable,
    /// A code this build does not know, carried verbatim.
    Unknown(String),
}

impl AuthZenErrorCode {
    /// The wire value.
    pub open spec fn wire(self) -> Seq<char> {
        match self {
            AuthZenErrorCode::IncompleteEvaluation => "incomplete_evaluation"@,
            AuthZenErrorCode::UnsupportedSubject => "unsupported_subject"@,
            AuthZenErrorCode::UnsupportedAction => "unsupported_action"@,
            AuthZenErrorCode::UnsupportedResource => "unsupported_resource"@,
            AuthZenErrorCode::UnsupportedContext => "unsupported_context"@,
            AuthZenErrorCode::EvaluationUnavailable => "evaluation_unavailable"@,
            AuthZenErrorCode::Unknown(s) => s@,
        }
    }

    /// The wire value.
    pub fn as_str(&self) -> (r: &str)
        ensures
            r@ == self.wire(),
    {
        match self {
            AuthZenErrorCode::IncompleteEvaluation => "incomplete_evaluation",
            AuthZenErrorCode::UnsupportedSubject => "unsupported_subject",
            AuthZenErrorCode::UnsupportedAction => "unsupported_action",
            AuthZenErrorCode::UnsupportedResource => "unsupported_resource",
            AuthZenErrorCode::UnsupportedContext => "unsupported_context",
            AuthZenErrorCode::EvaluationUnavailable => "evaluation_unavailable",
            AuthZenErrorCode::Unknown(s) => s.as_str(),
        }
    }

    /// Whether this is a code this build knows.
    pub fn is_known(&self) -> (r: bool)
        ensures
            r == !(self is Unknown),
    {
        !matches!(self, AuthZenErrorCode::Unknown(_))
    }

    /// Whether the caller could get a different answer by sending the same
    /// request again: only for a dependency failure. A code this build does
    /// not know is NOT retryable.
    pub fn retryable(&self) -> (r: bool)
        ensures
            r == (self is EvaluationUnavailable),
    {
        matches!(self, AuthZenErrorCode::EvaluationUnavailable)
    }
}

/// A typed refusal: the code, the message, the JSON Pointer of the member at
/// fault, and the values that would have been accepted.
#[derive(Clone, Debug, PartialEq, Eq)]
pub struct AuthZenError {
    pub code: AuthZenErrorCode,
    pub message: String,
    pub pointer: Option<String>,
    pub supported: Vec<String>,
}

impl AuthZenError {
    /// A refusal with no pointer and no supported values.
    pub fn new(code: AuthZenErrorCode, message: String) -> (e: Self)
        ensures
            e.code == code,
            e.message == message,
            e.pointer is None,
            e.supported@.len() == 0,
    {
        AuthZenError { code, message, pointer: None, supported: Vec::new() }
    }

    /// Attaches the JSON Pointer naming the member at fault. An EMPTY pointer
    /// is dropped rather than sent: the root has no member to name.
    pub fn at(self, pointer: &str) -> (e: Self)
        ensures
            e.code == self.code,
            e.message == self.message,
            e.supported == self.supported,
            pointer@.len() == 0 ==> e.pointer is None,
            pointer@.len() > 0 ==> e.pointer is Some && e.pointer->0@ == pointer@,
    {
        let p = if pointer.is_empty() {
            None
        } else {
            Some(owned(pointer))
        };
        AuthZenError { code: self.code, message: self.message, pointer: p, supported: self.supported }
    }

    /// Attaches the values that WOULD have been accepted.
    pub fn supporting(self, supported: Vec<String>) -> (e: Self)
        ensures
            e.code == self.code,
            e.message == self.message,
            e.pointer == self.pointer,
            e.supported == supported,
    {
        AuthZenError { code: self.code, message: self.message, pointer: self.pointer, supported }
    }

    /// Whether retrying this exact request could produce a different answer.
    pub fn retryable(&self) -> (r: bool)
        ensures
            r == (self.code is EvaluationUnavailable),
    {
        self.code.retryable()
    }
}


impl AuthZenError {
    /// How a refusal renders: its code, the member at fault when there is
    /// one, and the message.
    pub open spec fn rendering(self) -> Seq<char> {
        match self.pointer {
            Some(p) => "axonflow: "@ + self.code.wire() + " at "@ + p@ + ": "@ + self.message@,
            None => "axonflow: "@ + self.code.wire() + ": "@ + self.message@,
        }
    }

    /// The rendered refusal.
    pub fn to_string(&self) -> (r: String)
        ensures
            r@ == self.rendering(),
    {
        let mut r = owned("axonflow: ");
        append(&mut r, self.code.as_str());
        match &self.pointer {
            Some(p) => {
                append(&mut r, " at ");
                append(&mut r, p.as_str());
            },
            None => {},
        }
        append(&mut r, ": ");
        append(&mut r, self.message.as_str());
        r
    }
}

/// The profile this build understands.
pub const AUTHZEN_PROFILE_V1: &'static str = "axonflow.authzen.v1";

/// The contract version this build's wire types follow.
pub const AUTHZEN_CONTRACT_SCHEMA_VERSION: &'static str = "1.0.0";

/// Who is asking.
#[derive(Debug, PartialEq)]
pub struct AuthZenSubject {
    pub type_: String,
    pub id: String,
    pub properties: AttributeMap,
}

/// What they want to do.
#[derive(Debug, PartialEq)]
pub struct AuthZenAction {
    pub name: String,
    pub properties: AttributeMap,
}

/// What they want to do it to.
#[derive(Debug, PartialEq)]
pub struct AuthZenResource {
    pub type_: String,
    pub id: String,
    pub properties: AttributeMap,
}

impl AuthZenSubject {
    /// A subject with no properties.
    pub fn new(type_: &str, id: &str) -> (s: Self)
        ensures
            s.type_@ == type_@,
            s.id@ == id@,
            s.properties.members().len() == 0,
    {
        AuthZenSubject { type_: owned(type_), id: owned(id), properties: AttributeMap::new() }
    }
}

impl AuthZenAction {
    /// An action with no properties.
    pub fn new(name: &str) -> (a: Self)
        ensures
            a.name@ == name@,
            a.properties.members().len() == 0,
    {
        AuthZenAction { name: owned(name), properties: AttributeMap::new() }
    }
}

impl AuthZenResource {
    /// A resource with no properties.
    pub fn new(type_: &str, id: &str) -> (r: Self)
        ensures
            r.type_@ == type_@,
            r.id@ == id@,
            r.properties.members().len() == 0,
    {
        AuthZenResource { type_: owned(type_), id: owned(id), properties: AttributeMap::new() }
    }
}

/// One evaluation: a subject, an action, a resource and the context.
#[derive(Debug, PartialEq)]
pub struct AuthZenRequest {
    pub subject: Option<AuthZenSubject>,
    pub action: Option<AuthZenAction>,
    pub resource: Option<AuthZenResource>,
    pub context: AttributeMap,
}

/// Several preconditions of ONE operation, over a shared base that each
/// entry inherits unless it names its own.
#[derive(Debug, PartialEq)]
pub struct AuthZenBulk {
    pub subject: Option<AuthZenSubject>,
    pub action: Option<AuthZenAction>,
    pub resource: Option<AuthZenResource>,
    pub context: AttributeMap,
    pub evaluations: Vec<AuthZenRequest>,
}

impl AuthZenBulk {
    /// A bulk request over `evaluations` with an empty shared base.
    pub fn new(evaluations: Vec<AuthZenRequest>) -> (b: Self)
        ensures
            b.subject is None,
            b.action is None,
            b.resource is None,
            b.context.members().len() == 0,
            b.evaluations == evaluations,
    {
        AuthZenBulk { subject: None, action: None, resource: None, context: AttributeMap::new(), evaluations }
    }
}

/// What is sent: exactly one of a single evaluation and a bulk one.
#[derive(Debug, PartialEq)]
pub struct AuthZenEnvelope {
    pub evaluation: Option<AuthZenRequest>,
    pub evaluations: Option<AuthZenBulk>,
}

/// What is wrong with a request, found before it is sent.
pub enum Fault {
    /// A required member is absent or empty, at this pointer.
    Missing(Seq<char>),
    /// The envelope carries both evaluation forms, or neither.
    Shape,
    /// An attribute nobody could resolve: its pointer, key and reason.
    Unresolved((Seq<char>, Seq<char>, Seq<char>)),
}

/// The message for a missing required member.
pub open spec fn missing_message(pointer: Seq<char>) -> Seq<char> {
    "the required member "@ + pointer + " is missing or empty"@
}

/// The message for an envelope with both evaluation forms, or neither.
pub open spec fn shape_message() -> Seq<char> {
    "an envelope carries exactly one of evaluation and evaluations"@
}

/// The pointer a refusal names, with the root as the empty string.
pub open spec fn pointer_text(e: AuthZenError) -> Seq<char> {
    match e.pointer {
        Some(p) => p@,
        None => Seq::empty(),
    }
}

/// Whether `e` is the refusal for fault `f`.
pub open spec fn refuses_for(e: AuthZenError, f: Fault) -> bool {
    match f {
        Fault::Missing(p) => {
            &&& e.code is IncompleteEvaluation
            &&& e.message@ == missing_message(p)
            &&& (p.len() == 0 ==> e.pointer is None)
            &&& (p.len() > 0 ==> e.pointer is Some && e.pointer->0@ == p)
            &&& e.supported@.len() == 0
        },
        Fault::Shape => {
            &&& e.code is IncompleteEvaluation
            &&& e.message@ == shape_message()
            &&& e.pointer is None
            &&& e.supported@.len() == 0
        },
        Fault::Unresolved(found) => is_unresolved_refusal(e, found),
    }
}

/// How the refusal for a fault renders.
pub open spec fn fault_text(f: Fault) -> Seq<char> {
    match f {
        Fault::Missing(p) => if p.len() > 0 {
            "axonflow: incomplete_evaluation at "@ + p + ": "@ + missing_message(p)
        } else {
            "axonflow: incomplete_evaluation: "@ + missing_message(p)
        },
        Fault::Shape => "axonflow: incomplete_evaluation: "@ + shape_message(),
        Fault::Unresolved(found) => "axonflow: evaluation_unavailable at "@ + found.0 + ": "@ + unresolved_message(found.1, found.2),
    }
}

/// The refusal for a fault renders as the fault's text.
pub proof fn lemma_refusal_text(e: AuthZenError, f: Fault)
    requires
        refuses_for(e, f),
    ensures
        e.rendering() == fault_text(f),
{
    reveal_strlit("axonflow: ");
    reveal_strlit(" at ");
    reveal_strlit(": ");
    reveal_strlit("incomplete_evaluation");
    reveal_strlit("evaluation_unavailable");
    reveal_strlit("axonflow: incomplete_evaluation at ");
    reveal_strlit("axonflow: incomplete_evaluation: ");
    reveal_strlit("axonflow: evaluation_unavailable at ");
    assert(e.rendering() =~= fault_text(f));
}

/// The first of two faults.
pub open spec fn or_else(a: Option<Fault>, b: Option<Fault>) -> Option<Fault> {
    if a is Some { a } else { b }
}

/// The first unresolved member of a bag at `at`.
pub open spec fn bag_fault(m: AttributeMap, at: Seq<char>) -> Option<Fault> {
    match first_unresolved(m, at) {
        Some(found) => Some(Fault::Unresolved(found)),
        None => None,
    }
}

/// What is wrong with a subject or resource at `p`: an empty type, an empty
/// id, then an unresolved property.
pub open spec fn entity_fault(type_: Seq<char>, id: Seq<char>, props: AttributeMap, p: Seq<char>) -> Option<Fault> {
    if type_.len() == 0 {
        Some(Fault::Missing(p + "/type"@))
    } else if id.len() == 0 {
        Some(Fault::Missing(p + "/id"@))
    } else {
        bag_fault(props, p + "/properties"@)
    }
}

pub open spec fn present_subject_fault(s: AuthZenSubject, at: Seq<char>) -> Option<Fault> {
    entity_fault(s.type_@, s.id@, s.properties, at + "/subject"@)
}

pub open spec fn present_action_fault(a: AuthZenAction, at: Seq<char>) -> Option<Fault> {
    if a.name@.len() == 0 {
        Some(Fault::Missing(at + "/action/name"@))
    } else {
        bag_fault(a.properties, at + "/action/properties"@)
    }
}

pub open spec fn present_resource_fault(r: AuthZenResource, at: Seq<char>) -> Option<Fault> {
    entity_fault(r.type_@, r.id@, r.properties, at + "/resource"@)
}

/// What is wrong with a member that may be inherited: nothing when it is
/// absent here and `inherited`, a missing member when it is absent and not.
pub open spec fn member_fault<T>(m: Option<T>, inherited: bool, p: Seq<char>, present: spec_fn(T) -> Option<Fault>) -> Option<Fault> {
    match m {
        Some(v) => present(v),
        None => if inherited { None } else { Some(Fault::Missing(p)) },
    }
}

/// What is wrong with one evaluation at `at`, given which members the
/// shared base supplies: subject, action, resource, then the context.
pub open spec fn request_fault(r: AuthZenRequest, at: Seq<char>, has_subject: bool, has_action: bool, has_resource: bool) -> Option<Fault> {
    or_else(
        member_fault(r.subject, has_subject, at + "/subject"@, |s: AuthZenSubject| present_subject_fault(s, at)),
        or_else(
            member_fault(r.action, has_action, at + "/action"@, |a: AuthZenAction| present_action_fault(a, at)),
            or_else(
                member_fault(r.resource, has_resource, at + "/resource"@, |x: AuthZenResource| present_resource_fault(x, at)),
                bag_fault(r.context, at + "/context"@),
            ),
        ),
    )
}

/// The pointer of bulk entry `i` below `at`.
pub open spec fn entry_pointer(at: Seq<char>, i: int) -> Seq<char> {
    at + "/evaluations/"@ + decimal(i as nat)
}

/// The first fault among the entries from `i` on.
pub open spec fn entries_fault(b: AuthZenBulk, at: Seq<char>, i: int) -> Option<Fault>
    decreases b.evaluations@.len() - i,
{
    if i < 0 || i >= b.evaluations@.len() {
        None
    } else {
        or_else(
            request_fault(b.evaluations@[i], entry_pointer(at, i), b.subject is Some, b.action is Some, b.resource is Some),
            entries_fault(b, at, i + 1),
        )
    }
}

/// What is wrong with a bulk request: its shared base, no entries at all,
/// then the first entry that is incomplete after inheritance.
pub open spec fn bulk_fault(b: AuthZenBulk, at: Seq<char>) -> Option<Fault> {
    or_else(
        member_fault(b.subject, true, at + "/subject"@, |s: AuthZenSubject| present_subject_fault(s, at)),
        or_else(
            member_fault(b.action, true, at + "/action"@, |a: AuthZenAction| present_action_fault(a, at)),
            or_else(
                member_fault(b.resource, true, at + "/resource"@, |x: AuthZenResource| present_resource_fault(x, at)),
                or_else(
                    bag_fault(b.context, at + "/context"@),
                    if b.evaluations@.len() == 0 {
                        Some(Fault::Missing(at + "/evaluations"@))
                    } else {
                        entries_fault(b, at, 0)
                    },
                ),
            ),
        ),
    )
}

/// What is wrong with an envelope.
pub open spec fn envelope_fault(e: AuthZenEnvelope, at: Seq<char>) -> Option<Fault> {
    match (e.evaluation, e.evaluations) {
        (Some(r), None) => request_fault(r, at, false, false, false),
        (None, Some(b)) => bulk_fault(b, at),
        _ => Some(Fault::Shape),
    }
}

/// The refusal for a missing member at `pointer`.
fn missing(pointer: String) -> (e: AuthZenError)
    requires
        pointer@.len() > 0,
    ensures
        refuses_for(e, Fault::Missing(pointer@)),
{
    let mut m = owned("the required member ");
    append(&mut m, pointer.as_str());
    append(&mut m, " is missing or empty");
    AuthZenError::new(AuthZenErrorCode::IncompleteEvaluation, m).at(pointer.as_str())
}

fn joined(at: &str, suffix: &str) -> (r: String)
    ensures
        r@ == at@ + suffix@,
{
    let mut r = owned(at);
    append(&mut r, suffix);
    r
}

fn check_bag(m: &AttributeMap, at: String) -> (r: Result<(), AuthZenError>)
    ensures
        match bag_fault(*m, at@) {
            None => r is Ok,
            Some(f) => r is Err && refuses_for(r->Err_0, f),
        },
{
    m.validate(at.as_str())
}

fn check_entity(type_: &String, id: &String, props: &AttributeMap, p: String) -> (r: Result<(), AuthZenError>)
    ensures
        match entity_fault(type_@, id@, *props, p@) {
            None => r is Ok,
            Some(f) => r is Err && refuses_for(r->Err_0, f),
        },
{
    proof {
        reveal_strlit("/type");
        reveal_strlit("/id");
    }
    if type_.as_str().is_empty() {
        return Err(missing(joined(p.as_str(), "/type")));
    }
    if id.as_str().is_empty() {
        return Err(missing(joined(p.as_str(), "/id")));
    }
    check_bag(props, joined(p.as_str(), "/properties"))
}

fn check_subject(s: &Option<AuthZenSubject>, inherited: bool, at: &str) -> (r: Result<(), AuthZenError>)
    ensures
        match member_fault(*s, inherited, at@ + "/subject"@, |v: AuthZenSubject| present_subject_fault(v, at@)) {
            None => r is Ok,
            Some(f) => r is Err && refuses_for(r->Err_0, f),
        },
{
    proof {
        reveal_strlit("/subject");
    }
    match s {
        Some(v) => check_entity(&v.type_, &v.id, &v.properties, joined(at, "/subject")),
        None => if inherited {
            Ok(())
        } else {
            Err(missing(joined(at, "/subject")))
        },
    }
}

fn check_action(a: &Option<AuthZenAction>, inherited: bool, at: &str) -> (r: Result<(), AuthZenError>)
    ensures
        match member_fault(*a, inherited, at@ + "/action"@, |v: AuthZenAction| present_action_fault(v, at@)) {
            None => r is Ok,
            Some(f) => r is Err && refuses_for(r->Err_0, f),
        },
{
    proof {
        reveal_strlit("/action");
        reveal_strlit("/action/name");
    }
    match a {
        Some(v) => {
            if v.name.as_str().is_empty() {
                return Err(missing(joined(at, "/action/name")));
            }
            check_bag(&v.properties, joined(at, "/action/properties"))
        },
        None => if inherited {
            Ok(())
        } else {
            Err(missing(joined(at, "/action")))
        },
    }
}

fn check_resource(x: &Option<AuthZenResource>, inherited: bool, at: &str) -> (r: Result<(), AuthZenError>)
    ensures
        match member_fault(*x, inherited, at@ + "/resource"@, |v: AuthZenResource| present_resource_fault(v, at@)) {
            None => r is Ok,
            Some(f) => r is Err && refuses_for(r->Err_0, f),
        },
{
    proof {
        reveal_strlit("/resource");
    }
    match x {
        Some(v) => check_entity(&v.type_, &v.id, &v.properties, joined(at, "/resource")),
        None => if inherited {
            Ok(())
        } else {
            Err(missing(joined(at, "/resource")))
        },
    }
}

impl AuthZenRequest {
    /// Refuses an evaluation that is incomplete, given which members a shared
    /// base supplies, naming the first fault at its JSON Pointer below `at`.
    pub fn validate_within(&self, at: &str, has_subject: bool, has_action: bool, has_resource: bool) -> (r: Result<(), AuthZenError>)
        ensures
            match request_fault(*self, at@, has_subject, has_action, has_resource) {
                None => r is Ok,
                Some(f) => r is Err && refuses_for(r->Err_0, f),
            },
    {
        let a = check_subject(&self.subject, has_subject, at);
        if a.is_err() {
            return a;
        }
        let b = check_action(&self.action, has_action, at);
        if b.is_err() {
            return b;
        }
        let c = check_resource(&self.resource, has_resource, at);
        if c.is_err() {
            return c;
        }
        check_bag(&self.context, joined(at, "/context"))
    }

    /// Refuses an evaluation that is incomplete on its own.
    pub fn validate(&self, at: &str) -> (r: Result<(), AuthZenError>)
        ensures
            match request_fault(*self, at@, false, false, false) {
                None => r is Ok,
                Some(f) => r is Err && refuses_for(r->Err_0, f),
            },
    {
        self.validate_within(at, false, false, false)
    }
}

impl AuthZenBulk {
    /// Refuses a bulk request whose base or any entry is incomplete.
    pub fn validate(&self, at: &str) -> (r: Result<(), AuthZenError>)
        ensures
            match bulk_fault(*self, at@) {
                None => r is Ok,
                Some(f) => r is Err && refuses_for(r->Err_0, f),
            },
    {
        let a = check_subject(&self.subject, true, at);
        if a.is_err() {
            return a;
        }
        let b = check_action(&self.action, true, at);
        if b.is_err() {
            return b;
        }
        let c = check_resource(&self.resource, true, at);
        if c.is_err() {
            return c;
        }
        let d = check_bag(&self.context, joined(at, "/context"));
        if d.is_err() {
            return d;
        }
        if self.evaluations.len() == 0 {
            proof {
                reveal_strlit("/evaluations");
            }
            return Err(missing(joined(at, "/evaluations")));
        }
        proof {
            reveal_strlit("/evaluations");
        }
        let mut i: usize = 0;
        while i < self.evaluations.len()
            invariant
                i <= self.evaluations@.len(),
                bulk_fault(*self, at@) == entries_fault(*self, at@, 0),
                entries_fault(*self, at@, 0) == entries_fault(*self, at@, i as int),
            decreases self.evaluations@.len() - i,
        {
            let mut p = joined(at, "/evaluations/");
            let n = to_decimal(i as u64);
            append(&mut p, n.as_str());
            let e = self.evaluations[i].validate_within(
                p.as_str(),
                self.subject.is_some(),
                self.action.is_some(),
                self.resource.is_some(),
            );
            if e.is_err() {
                return e;
            }
            i += 1;
        }
        Ok(())
    }
}

impl AuthZenEnvelope {
    /// Refuses an envelope that cannot be evaluated: both forms or neither,
    /// or the first fault of the one it carries.
    pub fn validate(&self, at: &str) -> (r: Result<(), AuthZenError>)
        ensures
            match envelope_fault(*self, at@) {
                None => r is Ok,
                Some(f) => r is Err && refuses_for(r->Err_0, f),
            },
    {
        match (&self.evaluation, &self.evaluations) {
            (Some(r), None) => r.validate(at),
            (None, Some(b)) => b.validate(at),
            _ => {
                let m = owned("an envelope carries exactly one of evaluation and evaluations");
                Err(AuthZenError::new(AuthZenErrorCode::IncompleteEvaluation, m))
            },
        }
    }
}


/// The four-valued operational state of a decision.
#[derive(Clone, Debug, PartialEq, Eq)]
pub enum AuthZenOperationalState {
    Allow,
    Deny,
    Challenge,
    Error,
    /// A state this build does not know, carried verbatim.
    Unknown(String),
}

impl AuthZenOperationalState {
    /// The wire value.
    pub open spec fn wire(self) -> Seq<char> {
        match self {
            AuthZenOperationalState::Allow => "ALLOW"@,
            AuthZenOperationalState::Deny => "DENY"@,
            AuthZenOperationalState::Challenge => "CHALLENGE"@,
            AuthZenOperationalState::Error => "ERROR"@,
            AuthZenOperationalState::Unknown(s) => s@,
        }
    }

    /// The wire value.
    pub fn as_str(&self) -> (r: &str)
        ensures
            r@ == self.wire(),
    {
        match self {
            AuthZenOperationalState::Allow => "ALLOW",
            AuthZenOperationalState::Deny => "DENY",
            AuthZenOperationalState::Challenge => "CHALLENGE",
            AuthZenOperationalState::Error => "ERROR",
            AuthZenOperationalState::Unknown(s) => s.as_str(),
        }
    }

    /// Whether this is the one state that permits execution.
    pub fn is_allow(&self) -> (r: bool)
        ensures
            r == (*self is Allow),
    {
        matches!(self, AuthZenOperationalState::Allow)
    }
}

/// The coarse outcome category of a decision.
#[derive(Clone, Debug, PartialEq, Eq)]
pub enum AuthZenCategory {
    Allowed,
    Denied,
    ApprovalRequired,
    Failed,
    /// A category this build does not know, carried verbatim.
    Unknown(String),
}

impl AuthZenCategory {
    /// The wire value.
    pub open spec fn wire(self) -> Seq<char> {
        match self {
            AuthZenCategory::Allowed => "allowed"@,
            AuthZenCategory::Denied => "denied"@,
            AuthZenCategory::ApprovalRequired => "approval_required"@,
            AuthZenCategory::Failed => "failed"@,
            AuthZenCategory::Unknown(s) => s@,
        }
    }

    /// The wire value.
    pub fn as_str(&self) -> (r: &str)
        ensures
            r@ == self.wire(),
    {
        match self {
            AuthZenCategory::Allowed => "allowed",
            AuthZenCategory::Denied => "denied",
            AuthZenCategory::ApprovalRequired => "approval_required",
            AuthZenCategory::Failed => "failed",
            AuthZenCategory::Unknown(s) => s.as_str(),
        }
    }
}

/// The safe machine reason for a decision.
#[derive(Clone, Debug, PartialEq, Eq)]
pub struct AuthZenReasonCode(pub String);

/// One instruction the enforcement point must discharge.
#[derive(Clone, Debug, PartialEq, Eq)]
pub struct AuthZenObligation {
    pub id: String,
    pub obligation_type: AuthZenObligationType,
    /// The policy the obligation comes from.
    pub policy_id: String,
    /// Whether the allow stands only once this is discharged.
    pub mandatory: bool,
}

/// One clause of an approval challenge: who may approve, and how many must.
#[derive(Clone, Debug, PartialEq, Eq)]
pub struct AuthZenApprovalClause {
    pub approvers: Vec<String>,
    pub quorum: u32,
}

/// The approval a `CHALLENGE` asks for.
#[derive(Clone, Debug, PartialEq, Eq)]
pub struct AuthZenApprovalRequirement {
    pub clauses: Vec<AuthZenApprovalClause>,
}

/// The profile payload of a decision.
#[derive(Clone, Debug, PartialEq, Eq)]
pub struct AuthZenResponseContext {
    pub profile: String,
    pub state: AuthZenOperationalState,
    pub category: AuthZenCategory,
    pub reason: Option<AuthZenReasonCode>,
    pub obligations: Vec<AuthZenObligation>,
    pub approval: Option<AuthZenApprovalRequirement>,
    pub decision_id: String,
    pub schema_version: String,
}

/// A decoded evaluation response.
#[derive(Clone, Debug, PartialEq, Eq)]
pub struct AuthZenResponse {
    pub decision: bool,
    pub context: Option<AuthZenResponseContext>,
}

/// The first obligation from `i` on that names no source policy.
pub open spec fn obligations_fault(os: Seq<AuthZenObligation>, at: Seq<char>, i: int) -> Option<Fault>
    decreases os.len() - i,
{
    if i < 0 || i >= os.len() {
        None
    } else if os[i].policy_id@.len() == 0 {
        Some(Fault::Missing(at + "/obligations/"@ + decimal(i as nat) + "/policy_id"@))
    } else {
        obligations_fault(os, at, i + 1)
    }
}

/// The first approval clause from `j` on with no eligible approver.
pub open spec fn clauses_fault(cs: Seq<AuthZenApprovalClause>, at: Seq<char>, j: int) -> Option<Fault>
    decreases cs.len() - j,
{
    if j < 0 || j >= cs.len() {
        None
    } else if cs[j].approvers@.len() == 0 {
        Some(Fault::Missing(at + "/approval/clauses/"@ + decimal(j as nat) + "/approvers"@))
    } else {
        clauses_fault(cs, at, j + 1)
    }
}

/// What is wrong with a profile payload at `at`: an empty decision id, an
/// empty schema version, an obligation naming no source policy, an approval
/// clause with no eligible approver.
pub open spec fn context_fault(c: AuthZenResponseContext, at: Seq<char>) -> Option<Fault> {
    if c.decision_id@.len() == 0 {
        Some(Fault::Missing(at + "/decision_id"@))
    } else if c.schema_version@.len() == 0 {
        Some(Fault::Missing(at + "/schema_version"@))
    } else {
        or_else(
            obligations_fault(c.obligations@, at, 0),
            match c.approval {
                Some(a) => clauses_fault(a.clauses@, at, 0),
                None => None,
            },
        )
    }
}

/// What is wrong with a decoded response below `at`.
pub open spec fn response_fault(r: AuthZenResponse, at: Seq<char>) -> Option<Fault> {
    match r.context {
        Some(c) => context_fault(c, at + "/context"@),
        None => None,
    }
}

impl AuthZenResponseContext {
    /// Refuses a payload with an empty required member, an obligation naming
    /// no source policy, or an approval clause with no eligible approver.
    pub fn validate(&self, at: &str) -> (r: Result<(), AuthZenError>)
        ensures
            match context_fault(*self, at@) {
                None => r is Ok,
                Some(f) => r is Err && refuses_for(r->Err_0, f),
            },
    {
        proof {
            reveal_strlit("/decision_id");
            reveal_strlit("/schema_version");
        }
        if self.decision_id.as_str().is_empty() {
            return Err(missing(joined(at, "/decision_id")));
        }
        if self.schema_version.as_str().is_empty() {
            return Err(missing(joined(at, "/schema_version")));
        }
        let mut i: usize = 0;
        while i < self.obligations.len()
            invariant
                i <= self.obligations@.len(),
                context_fault(*self, at@) == or_else(
                    obligations_fault(self.obligations@, at@, 0),
                    match self.approval {
                        Some(a) => clauses_fault(a.clauses@, at@, 0),
                        None => None,
                    },
                ),
                obligations_fault(self.obligations@, at@, 0) == obligations_fault(self.obligations@, at@, i as int),
            decreases self.obligations@.len() - i,
        {
            if self.obligations[i].policy_id.as_str().is_empty() {
                let mut p = joined(at, "/obligations/");
                let n = to_decimal(i as u64);
                append(&mut p, n.as_str());
                append(&mut p, "/policy_id");
                proof {
                    reveal_strlit("/obligations/");
                }
                return Err(missing(p));
            }
            i += 1;
        }
        match &self.approval {
            Some(a) => {
                let mut j: usize = 0;
                while j < a.clauses.len()
                    invariant
                        j <= a.clauses@.len(),
                        self.approval == Some(*a),
                        context_fault(*self, at@) == clauses_fault(a.clauses@, at@, 0),
                        clauses_fault(a.clauses@, at@, 0) == clauses_fault(a.clauses@, at@, j as int),
                    decreases a.clauses@.len() - j,
                {
                    if a.clauses[j].approvers.len() == 0 {
                        let mut p = joined(at, "/approval/clauses/");
                        let n = to_decimal(j as u64);
                        append(&mut p, n.as_str());
                        append(&mut p, "/approvers");
                        proof {
                            reveal_strlit("/approval/clauses/");
                        }
                        return Err(missing(p));
                    }
                    j += 1;
                }
                Ok(())
            },
            None => Ok(()),
        }
    }
}

impl AuthZenResponse {
    /// Refuses a response whose payload does not hang together.
    pub fn validate(&self, at: &str) -> (r: Result<(), AuthZenError>)
        ensures
            match response_fault(*self, at@) {
                None => r is Ok,
                Some(f) => r is Err && refuses_for(r->Err_0, f),
            },
    {
        match &self.context {
            Some(c) => c.validate(joined(at, "/context").as_str()),
            None => Ok(()),
        }
    }
}

} // verus!
