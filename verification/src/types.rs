//! Shared wire enumerations of the task domain.

use vstd::prelude::*;

verus! {

/// Priority of an issue.
#[derive(Clone, Copy, PartialEq, Eq, Structural, Debug)]
pub enum IssuePriority {
    Urgent,
    High,
    Medium,
    Low,
}

/// State of a workspace's pull request.
#[derive(Clone, Copy, PartialEq, Eq, Structural, Debug)]
pub enum WorkspacePrStatus {
    Open,
    Merged,
    Closed,
}

} // verus!
