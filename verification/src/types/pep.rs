//! Decision Mode wire types: the verdict, its obligations, and the engine
//! round trip that discharges them.

use vstd::prelude::*;
use crate::text::owned;

verus! {

/// Any JSON value, carried through unread.
#[verifier::external_type_specification]
#[verifier::external_body]
pub struct ExJsonValue(serde_json::Value);

/// Where and how an obligation is discharged.
#[derive(Debug, Clone, Default, PartialEq, Eq)]
pub struct ObligationFulfillment {
    pub endpoint: String,
    pub method: String,
    pub phase: String,
    pub content_types: Option<Vec<String>>,
}

/// One instruction a verdict carries.
#[derive(Debug, Clone, Default, PartialEq, Eq)]
pub struct Obligation {
    /// The obligation type, for example `redact_pii`.
    pub type_: String,
    pub detail: Option<String>,
    pub fulfillment: Option<ObligationFulfillment>,
}

/// Who is asking for a verdict.
#[derive(Debug, Clone, Default, PartialEq, Eq)]
pub struct DecisionCallerIdentity {
    pub gateway_id: Option<String>,
    pub org_id: Option<String>,
    pub tenant_id: Option<String>,
}

/// What the request is bound for.
#[derive(Debug, Clone, Default, PartialEq, Eq)]
pub struct DecisionTarget {
    pub type_: Option<String>,
    pub model: Option<String>,
    pub provider: Option<String>,
    pub tool: Option<String>,
}

/// A request for a verdict.
#[derive(Debug, Clone, Default)]
pub struct DecideRequest {
    pub stage: String,
    pub query: String,
    pub caller_identity: DecisionCallerIdentity,
    pub target: DecisionTarget,
    pub user_token: Option<String>,
    pub context: Option<serde_json::Value>,
}

impl DecideRequest {
    /// A request for `stage` over `query`, with no identity, target, token or
    /// context.
    pub fn new(stage: &str, query: &str) -> (r: Self)
        ensures
            r.stage@ == stage@,
            r.query@ == query@,
            r.caller_identity == (DecisionCallerIdentity { gateway_id: None, org_id: None, tenant_id: None }),
            r.target == (DecisionTarget { type_: None, model: None, provider: None, tool: None }),
            r.user_token is None,
            r.context is None,
    {
        DecideRequest {
            stage: owned(stage),
            query: owned(query),
            caller_identity: DecisionCallerIdentity { gateway_id: None, org_id: None, tenant_id: None },
            target: DecisionTarget { type_: None, model: None, provider: None, tool: None },
            user_token: None,
            context: None,
        }
    }
}

/// What the decision point answered: `allow`, `deny` or `needs_approval`,
/// with the obligations an allow carries.
#[derive(Debug, Clone, Default)]
pub struct DecideResponse {
    pub verdict: String,
    pub decision_id: Option<String>,
    pub trace_id: Option<String>,
    pub reasons: Option<Vec<String>>,
    pub obligations: Vec<Obligation>,
    pub evaluated_policies: Vec<String>,
    pub stage: Option<String>,
    pub expires_at: Option<String>,
    pub error: Option<String>,
}

/// A request to the request-phase redaction engine.
#[derive(Debug, Clone, Default)]
pub struct MCPCheckInputRequest {
    pub connector_type: String,
    pub statement: String,
    pub operation: Option<String>,
    pub tenant_id: Option<String>,
    pub content_type: Option<String>,
}

/// What the request-phase redaction engine answered.
#[derive(Debug, Clone, Default)]
pub struct MCPCheckInputResponse {
    pub allowed: bool,
    pub block_reason: Option<String>,
    pub policies_evaluated: u64,
    pub decision_id: Option<String>,
    pub redacted: bool,
    pub redacted_statement: Option<String>,
    /// Whether the redactor actually ran.
    pub redaction_evaluated: bool,
}

/// A request to the response-phase redaction engine.
#[derive(Debug, Clone, Default)]
pub struct MCPCheckOutputRequest {
    pub connector_type: String,
    pub message: Option<String>,
    pub tenant_id: Option<String>,
}

/// What the response-phase redaction engine answered.
#[derive(Debug, Clone, Default)]
pub struct MCPCheckOutputResponse {
    pub allowed: bool,
    pub block_reason: Option<String>,
    pub redacted_message: Option<String>,
    pub policies_evaluated: u64,
    pub decision_id: Option<String>,
    pub redaction_evaluated: bool,
}

} // verus!
