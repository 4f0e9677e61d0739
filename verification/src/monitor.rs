//! Pull-request monitoring and metadata enrichment: the decisions taken
//! on each poll, parted from the GitHub calls that feed them.

use vstd::prelude::*;

verus! {

/// State of a pull request as reported upstream.
#[derive(Clone, Copy, PartialEq, Eq, Structural, Debug)]
pub enum PullRequestStatus {
    Open,
    Merged,
    Closed,
}

/// The fields reported when upserting a pull request.
pub struct UpsertPullRequestRequest {
    pub url: String,
    pub number: i32,
    pub status: PullRequestStatus,
    pub merged_at: Option<i64>,
    pub merge_commit_sha: Option<String>,
    pub target_branch_name: String,
    pub local_workspace_id: u128,
}

/// What one pull-request status poll leads to.
pub enum PrCheckPlan {
    /// Still open: nothing to record.
    NoChange,
    /// The status changed: record it, and when it merged, move the
    /// linked task to done.
    UpdateMergeStatus { mark_task_done: bool },
}

/// Decides what to do with a polled pull-request status: an open one is
/// left alone; a merged one records the status and marks the task done;
/// a closed one records the status only.
pub fn pr_check_plan(status: PullRequestStatus) -> (r: PrCheckPlan)
    ensures
        status is Open ==> r is NoChange,
        status is Merged ==> (r matches PrCheckPlan::UpdateMergeStatus { mark_task_done }
            && mark_task_done),
        status is Closed ==> (r matches PrCheckPlan::UpdateMergeStatus { mark_task_done }
            && !mark_task_done),
{
    match status {
        PullRequestStatus::Open => PrCheckPlan::NoChange,
        PullRequestStatus::Merged => PrCheckPlan::UpdateMergeStatus { mark_task_done: true },
        PullRequestStatus::Closed => PrCheckPlan::UpdateMergeStatus { mark_task_done: false },
    }
}

/// How to complete a project's remote metadata.
pub enum MetadataEnrichment {
    /// The repository id is already known: keep what is there.
    KeepExisting,
    /// The owner or name is missing, or no token is available: skip
    /// enrichment.
    Skip,
    /// Look the repository id up for this owner and name.
    FetchRepoId { owner: String, name: String },
}

/// Decides whether to enrich a project's metadata with its repository
/// id: nothing to do when the id is known; impossible without both the
/// owner and the name, or without a token.
pub fn metadata_enrichment_plan(
    github_repo_id: Option<i64>,
    owner: &Option<String>,
    name: &Option<String>,
    token_available: bool,
) -> (r: MetadataEnrichment)
    ensures
        github_repo_id is Some ==> r is KeepExisting,
        github_repo_id is None && (owner is None || name is None) ==> r is Skip,
        github_repo_id is None && owner is Some && name is Some && !token_available
            ==> r is Skip,
        github_repo_id is None && owner is Some && name is Some && token_available ==> (r matches
            MetadataEnrichment::FetchRepoId { owner: o, name: n } && (owner matches Some(ow)
            && o@ == ow@) && (name matches Some(na) && n@ == na@)),
{
    if github_repo_id.is_some() {
        return MetadataEnrichment::KeepExisting;
    }
    match (owner, name) {
        (Some(o), Some(n)) => {
            if token_available {
                MetadataEnrichment::FetchRepoId { owner: o.clone(), name: n.clone() }
            } else {
                MetadataEnrichment::Skip
            }
        },
        _ => MetadataEnrichment::Skip,
    }
}

} // verus!
