//! Decision explainability types: the parts the library reads or builds.

use vstd::prelude::*;

verus! {

/// A policy reference inside a decision explanation.
#[derive(Debug, Clone, Default, PartialEq)]
pub struct ExplainPolicy {
    pub policy_id: String,
    pub policy_name: Option<String>,
    pub action: Option<String>,
    pub risk_level: Option<String>,
    pub allow_override: bool,
    pub policy_description: Option<String>,
}

/// Rule-level detail inside a decision explanation.
#[derive(Debug, Clone, Default, PartialEq)]
pub struct ExplainRule {
    pub policy_id: String,
    pub rule_id: Option<String>,
    pub rule_text: Option<String>,
    pub matched_on: Option<String>,
}

/// Optional filters for listing decisions. `since` is a UTC instant in
/// whole seconds since the Unix epoch.
#[derive(Debug, Clone, Default, PartialEq)]
pub struct ListDecisionsOptions {
    pub since: Option<i64>,
    pub decision: Option<String>,
    pub policy_id: Option<String>,
    pub tool_signature: Option<String>,
    pub limit: Option<u32>,
}

/// Pricing-tier upgrade context returned in a 429 envelope.
#[derive(Debug, Clone, Default, PartialEq)]
pub struct UpgradeInfo {
    pub tier: String,
    pub wording: String,
    pub compare_url: String,
    pub buy_url: String,
}

/// Parsed body of a 429 response carrying a tier-cap envelope.
#[derive(Debug, Clone, Default, PartialEq)]
pub struct RateLimitEnvelope {
    pub error: String,
    pub limit_type: String,
    pub tier: String,
    pub limit: u32,
    pub remaining: u32,
    pub upgrade: UpgradeInfo,
}


/// Whether a flag is unset: a `false` `context_truncated` is left off the
/// wire.
pub fn is_false(b: &bool) -> (r: bool)
    ensures
        r == !*b,
{
    !*b
}

} // verus!
