//! Human-in-the-loop queue types the library's logic reads.

use vstd::prelude::*;

verus! {

/// Filters for listing the approval queue; an absent one is left to the
/// platform's default.
#[derive(Debug, Clone, Default, PartialEq, Eq)]
pub struct HITLQueueListOptions {
    pub status: Option<String>,
    pub severity: Option<String>,
    pub limit: Option<i64>,
    pub offset: Option<i64>,
}

/// An approver's ruling on a queued request.
#[derive(Debug, Clone, PartialEq, Eq)]
pub struct HITLReviewInput {
    pub reviewer_id: String,
    pub reviewer_email: String,
    pub reviewer_role: Option<String>,
    pub comment: Option<String>,
}

} // verus!
