//! Agent wire types the library's logic reads or builds.

pub mod transfer_basis;

use vstd::prelude::*;

verus! {

/// A piece of media attached to a request.
#[derive(Debug, Clone, PartialEq, Eq)]
pub struct MediaContent {
    pub id: String,
    pub type_: String,
    pub url: Option<String>,
    pub base64: Option<String>,
}

/// The policy evaluation behind a proxied answer.
#[derive(Debug, Clone, Default, PartialEq, Eq)]
pub struct PolicyEvaluationInfo {
    pub policies_evaluated: Vec<String>,
    pub static_checks: Vec<String>,
    pub processing_time: String,
    pub tenant_id: String,
    pub code_artifact: Option<CodeArtifact>,
}

/// Token counts of one model call.
#[derive(Debug, Clone, Copy, Default, PartialEq, Eq)]
pub struct TokenUsage {
    pub prompt_tokens: usize,
    pub completion_tokens: usize,
    pub total_tokens: usize,
}

/// What an audit write answered.
#[derive(Debug, Clone, Default, PartialEq, Eq)]
pub struct AuditResult {
    pub success: bool,
    pub audit_id: String,
}

/// The health of one connector.
#[derive(Debug, Clone, Default, PartialEq, Eq)]
pub struct ConnectorHealthStatus {
    pub healthy: bool,
    pub latency: i64,
    pub details: std::collections::HashMap<String, String>,
    pub timestamp: String,
    pub error: Option<String>,
}

/// The policies a connector query went through.
#[derive(Debug, Clone, PartialEq, Eq)]
pub struct PolicyInfo {
    pub policies_evaluated: usize,
    pub blocked: bool,
    pub block_reason: Option<String>,
    pub redactions_applied: usize,
    pub processing_time_ms: i64,
    pub matched_policies: Vec<PolicyMatchInfo>,
}

/// One policy that matched.
#[derive(Debug, Clone, PartialEq, Eq)]
pub struct PolicyMatchInfo {
    pub policy_id: String,
    pub policy_name: String,
    pub category: String,
    pub severity: String,
    pub action: String,
}

/// What cancelling a plan answered.
#[derive(Debug, Clone, Default, PartialEq, Eq)]
pub struct CancelPlanResponse {
    pub plan_id: String,
    pub status: String,
    pub success: bool,
}

/// What the platform found about generated code.
#[derive(Debug, Clone, PartialEq, Eq)]
pub struct CodeArtifact {
    pub is_code_output: bool,
    pub language: String,
    pub code_type: String,
    pub size_bytes: usize,
    pub line_count: usize,
    pub secrets_detected: usize,
    pub unsafe_patterns: usize,
    pub policies_checked: Vec<String>,
}

} // verus!
