//! The response envelope returned by one remote lookup, and the
//! classification of its review decision into a display category.

use vstd::prelude::*;
use vstd::string::StringExecFns;

verus! {

/// The aggregate review verdict of a pull request. The remote service may
/// add new verdicts over time; those arrive as `Unrecognized` with the raw
/// label kept for diagnostics.
#[derive(Debug, PartialEq, Eq)]
pub enum ReviewDecision {
    Approved,
    ChangesRequested,
    ReviewRequired,
    Unrecognized(String),
}

/// The data a successful lookup reports about one pull request.
pub struct PullRequestSummary {
    pub title: String,
    pub url: String,
    /// Absent when no review verdict exists yet.
    pub review_decision: Option<ReviewDecision>,
}

/// What the looked-up identifier resolved to: a pull request, or some other
/// kind of resource.
pub enum Resource {
    PullRequest(PullRequestSummary),
    Other,
}

/// The payload of a response envelope.
pub struct ResponseData {
    /// Absent when the identifier resolved to nothing.
    pub resource: Option<Resource>,
}

/// One raw per-request response envelope, as the remote service returns it.
pub struct ResponseEnvelope {
    /// Absent when the response carried no payload at all.
    pub data: Option<ResponseData>,
}

/// Whether `decision` is the review decision that the raw wire label
/// `label` denotes: each of the three known labels maps to its variant, and
/// any other label is kept whole as `Unrecognized`.
pub open spec fn spec_decision_for_label(decision: ReviewDecision, label: Seq<char>) -> bool {
    match decision {
        ReviewDecision::Approved => label == "APPROVED"@,
        ReviewDecision::ChangesRequested => label == "CHANGES_REQUESTED"@,
        ReviewDecision::ReviewRequired => label == "REVIEW_REQUIRED"@,
        ReviewDecision::Unrecognized(raw) => raw@ == label && label != "APPROVED"@ && label
            != "CHANGES_REQUESTED"@ && label != "REVIEW_REQUIRED"@,
    }
}

/// Reads a raw review-decision label off the wire.
///
/// An unknown label is not an error: it is carried as `Unrecognized`, so a
/// verdict the service adds later still classifies as pending.
pub fn decision_from_label(label: String) -> (decision: ReviewDecision)
    ensures
        spec_decision_for_label(decision, label@),
{
    if label == String::from_str("APPROVED") {
        ReviewDecision::Approved
    } else if label == String::from_str("CHANGES_REQUESTED") {
        ReviewDecision::ChangesRequested
    } else if label == String::from_str("REVIEW_REQUIRED") {
        ReviewDecision::ReviewRequired
    } else {
        ReviewDecision::Unrecognized(label)
    }
}

/// The fixed display category a review decision is classified into.
#[derive(PartialEq, Eq, Structural, Clone, Copy, Debug)]
pub enum Category {
    Accepted,
    ChangesNeeded,
    Pending,
}

/// The display category of a review decision: `Approved` is accepted,
/// `ChangesRequested` needs changes, and everything else — an absent
/// decision, `ReviewRequired`, or an unrecognized future verdict — is
/// still pending.
pub open spec fn spec_classify(decision: Option<ReviewDecision>) -> Category {
    match decision {
        Some(ReviewDecision::Approved) => Category::Accepted,
        Some(ReviewDecision::ChangesRequested) => Category::ChangesNeeded,
        Some(ReviewDecision::ReviewRequired) => Category::Pending,
        Some(ReviewDecision::Unrecognized(_)) => Category::Pending,
        None => Category::Pending,
    }
}

/// Classifies a review decision into its display category.
///
/// An unrecognized verdict value is never an error: it degrades to
/// `Pending`, so future server-side additions cannot break a whole batch.
pub fn classify(decision: &Option<ReviewDecision>) -> (category: Category)
    ensures
        category == spec_classify(*decision),
{
    match decision {
        Some(ReviewDecision::Approved) => Category::Accepted,
        Some(ReviewDecision::ChangesRequested) => Category::ChangesNeeded,
        Some(ReviewDecision::ReviewRequired) => Category::Pending,
        Some(ReviewDecision::Unrecognized(_)) => Category::Pending,
        None => Category::Pending,
    }
}

/// The label a category is displayed under.
pub open spec fn spec_label(category: Category) -> Seq<char> {
    match category {
        Category::Accepted => "Accepted"@,
        Category::ChangesNeeded => "Changes Needed"@,
        Category::Pending => "Pending"@,
    }
}

/// The label a category is displayed under. `Accepted` carries a positive
/// emphasis intent, `ChangesNeeded` an alerting one, and `Pending` a neutral
/// one; applying the emphasis is the renderer's business.
pub fn category_label(category: &Category) -> (label: &'static str)
    ensures
        label@ == spec_label(*category),
{
    match category {
        Category::Accepted => "Accepted",
        Category::ChangesNeeded => "Changes Needed",
        Category::Pending => "Pending",
    }
}

} // verus!
