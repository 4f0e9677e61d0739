//! Shared-task data model and the size rule on task text.

use vstd::prelude::*;

use crate::identity::{opt_string_dup, UserData};
use crate::project::ProjectMetadata;

verus! {

/// Combined byte budget for a task's title plus description.
pub const MAX_SHARED_TASK_TEXT_BYTES: usize = 51200;

/// Status of a shared task.
#[derive(Clone, Copy, PartialEq, Eq, Structural, Debug)]
pub enum TaskStatus {
    Todo,
    InProgress,
    InReview,
    Done,
    Cancelled,
}

/// Errors a task mutation can end in.
#[derive(Debug)]
pub enum SharedTaskError {
    /// No task with the requested id exists in the organization.
    NotFound,
    /// The acting user is not the task's current assignee.
    Forbidden,
    /// Version mismatch, previous-assignee mismatch, or a row that
    /// disappeared concurrently; carries the wire message.
    Conflict(String),
    /// Title plus description exceed the text budget.
    PayloadTooLarge,
}

/// A shared task row, the server-side record of one task.
pub struct SharedTask {
    pub id: u128,
    pub organization_id: String,
    pub project_id: u128,
    pub creator_user_id: Option<String>,
    pub assignee_user_id: Option<String>,
    pub deleted_by_user_id: Option<String>,
    pub title: String,
    pub description: Option<String>,
    pub status: TaskStatus,
    pub version: i64,
    pub deleted_at: Option<i64>,
    pub shared_at: Option<i64>,
    pub created_at: i64,
    pub updated_at: i64,
}

impl SharedTask {
    /// Field-for-field copy.
    pub fn dup(&self) -> (r: Self)
        ensures
            r == *self,
    {
        SharedTask {
            id: self.id,
            organization_id: self.organization_id.clone(),
            project_id: self.project_id,
            creator_user_id: opt_string_dup(&self.creator_user_id),
            assignee_user_id: opt_string_dup(&self.assignee_user_id),
            deleted_by_user_id: opt_string_dup(&self.deleted_by_user_id),
            title: self.title.clone(),
            description: opt_string_dup(&self.description),
            status: self.status,
            version: self.version,
            deleted_at: self.deleted_at,
            shared_at: self.shared_at,
            created_at: self.created_at,
            updated_at: self.updated_at,
        }
    }
}

/// A task together with the user data of its assignee, if any.
pub struct SharedTaskWithUser {
    pub task: SharedTask,
    pub user: Option<UserData>,
}

impl SharedTaskWithUser {
    /// Pairs a task with its assignee's user data.
    pub fn new(task: SharedTask, user: Option<UserData>) -> (r: Self)
        ensures
            r.task == task,
            r.user == user,
    {
        SharedTaskWithUser { task, user }
    }
}

/// Data for creating a shared task.
pub struct CreateSharedTaskData {
    pub project: ProjectMetadata,
    pub title: String,
    pub description: Option<String>,
    pub creator_user_id: String,
    pub assignee_user_id: Option<String>,
}

/// Data for updating a shared task's text, status, or both.
pub struct UpdateSharedTaskData {
    pub title: Option<String>,
    pub description: Option<String>,
    pub status: Option<TaskStatus>,
    pub version: Option<i64>,
    pub acting_user_id: String,
}

/// Data for transferring a task's assignment.
pub struct AssignTaskData {
    pub new_assignee_user_id: Option<String>,
    pub previous_assignee_user_id: Option<String>,
    pub version: Option<i64>,
}

/// Data for soft-deleting a shared task.
pub struct DeleteTaskData {
    pub acting_user_id: String,
    pub version: Option<i64>,
}

/// Total UTF-8 byte length of a title together with an optional description.
pub open spec fn spec_text_size(title: Seq<char>, description: Option<Seq<char>>) -> nat {
    vstd::utf8::encode_utf8(title).len() + match description {
        Some(d) => vstd::utf8::encode_utf8(d).len(),
        None => 0,
    }
}

/// Whether a title and optional description fit within the text budget.
pub open spec fn text_size_ok(title: Seq<char>, description: Option<Seq<char>>) -> bool {
    spec_text_size(title, description) <= MAX_SHARED_TASK_TEXT_BYTES
}

/// Accepts a title and optional description only when their combined
/// byte length stays within `MAX_SHARED_TASK_TEXT_BYTES`.
pub fn ensure_text_size(title: &String, description: Option<&String>) -> (r: Result<
    (),
    SharedTaskError,
>)
    ensures
        r is Ok <==> text_size_ok(
            title@,
            match description {
                Some(d) => Some(d@),
                None => None,
            },
        ),
        r is Err ==> r->Err_0 is PayloadTooLarge,
{
    let title_len = title.as_str().as_bytes().len();
    let description_len = match description {
        Some(d) => d.as_str().as_bytes().len(),
        None => 0,
    };
    if title_len > MAX_SHARED_TASK_TEXT_BYTES
        || description_len > MAX_SHARED_TASK_TEXT_BYTES - title_len {
        Err(SharedTaskError::PayloadTooLarge)
    } else {
        Ok(())
    }
}

} // verus!
