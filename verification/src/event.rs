//! Activity events: the durable, append-only record of task mutations.

use vstd::prelude::*;

use crate::identity::UserData;
use crate::project::ProjectMetadata;
use crate::task::SharedTask;

verus! {

/// The kind of mutation an activity event records.
#[derive(Clone, Copy, PartialEq, Eq, Structural, Debug)]
pub enum EventType {
    TaskCreated,
    TaskUpdated,
    TaskReassigned,
    TaskDeleted,
}

/// Self-contained event payload: the post-mutation task state together
/// with the project metadata and the assignee's user data, so a client
/// can reconstruct state without further fetches.
pub struct SharedTaskActivityPayload {
    pub task: SharedTask,
    pub project: ProjectMetadata,
    pub user: Option<UserData>,
}

impl SharedTaskActivityPayload {
    /// Field-for-field copy.
    pub fn dup(&self) -> (r: Self)
        ensures
            r == *self,
    {
        SharedTaskActivityPayload {
            task: self.task.dup(),
            project: self.project.dup(),
            user: match &self.user {
                Some(u) => Some(u.dup()),
                None => None,
            },
        }
    }
}

/// One row of the per-organization activity log.
pub struct ActivityEvent {
    pub seq: i64,
    pub event_id: u128,
    pub organization_id: String,
    pub event_type: EventType,
    pub created_at: i64,
    pub payload: SharedTaskActivityPayload,
}

impl ActivityEvent {
    /// Builds an event from its parts.
    pub fn new(
        seq: i64,
        event_id: u128,
        organization_id: String,
        event_type: EventType,
        created_at: i64,
        payload: SharedTaskActivityPayload,
    ) -> (r: Self)
        ensures
            r == (ActivityEvent { seq, event_id, organization_id, event_type, created_at, payload }),
    {
        ActivityEvent { seq, event_id, organization_id, event_type, created_at, payload }
    }

    /// Field-for-field copy.
    pub fn dup(&self) -> (r: Self)
        ensures
            r == *self,
    {
        ActivityEvent {
            seq: self.seq,
            event_id: self.event_id,
            organization_id: self.organization_id.clone(),
            event_type: self.event_type,
            created_at: self.created_at,
            payload: self.payload.dup(),
        }
    }
}

/// Response body of the activity catch-up endpoint.
pub struct ActivityResponse {
    pub data: Vec<ActivityEvent>,
}

} // verus!
