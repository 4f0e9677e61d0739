//! The client-side mirror: local shared-task rows, the per-organization
//! activity cursor, and the processor that applies events exactly once.

use vstd::prelude::*;

use crate::event::ActivityEvent;
use crate::identity::{opt_string_dup, UserData};
use crate::task::TaskStatus;
use vstd::pervasive::VecAdditionalExecFns;

verus! {

/// A local mirror row of a shared task, denormalized with assignee data.
pub struct SharedTask {
    pub id: u128,
    pub organization_id: String,
    pub project_id: Option<u128>,
    pub github_repo_id: Option<i64>,
    pub title: String,
    pub description: Option<String>,
    pub status: TaskStatus,
    pub assignee_user_id: Option<String>,
    pub assignee_first_name: Option<String>,
    pub assignee_last_name: Option<String>,
    pub assignee_username: Option<String>,
    pub version: i64,
    pub last_event_seq: Option<i64>,
    pub created_at: i64,
    pub updated_at: i64,
}

impl SharedTask {
    /// Field-for-field copy.
    pub fn dup(&self) -> (r: Self)
        ensures
            r == *self,
    {
        SharedTask {
            id: self.id,
            organization_id: self.organization_id.clone(),
            project_id: self.project_id,
            github_repo_id: self.github_repo_id,
            title: self.title.clone(),
            description: opt_string_dup(&self.description),
            status: self.status,
            assignee_user_id: opt_string_dup(&self.assignee_user_id),
            assignee_first_name: opt_string_dup(&self.assignee_first_name),
            assignee_last_name: opt_string_dup(&self.assignee_last_name),
            assignee_username: opt_string_dup(&self.assignee_username),
            version: self.version,
            last_event_seq: self.last_event_seq,
            created_at: self.created_at,
            updated_at: self.updated_at,
        }
    }
}

/// The fields written on an upsert of a local mirror row.
pub struct SharedTaskInput {
    pub id: u128,
    pub organization_id: String,
    pub project_id: Option<u128>,
    pub github_repo_id: Option<i64>,
    pub title: String,
    pub description: Option<String>,
    pub status: TaskStatus,
    pub assignee_user_id: Option<String>,
    pub assignee_first_name: Option<String>,
    pub assignee_last_name: Option<String>,
    pub assignee_username: Option<String>,
    pub version: i64,
    pub last_event_seq: Option<i64>,
    pub created_at: i64,
    pub updated_at: i64,
}

/// The row a `SharedTaskInput` stores.
pub open spec fn task_of_input(d: SharedTaskInput) -> SharedTask {
    SharedTask {
        id: d.id,
        organization_id: d.organization_id,
        project_id: d.project_id,
        github_repo_id: d.github_repo_id,
        title: d.title,
        description: d.description,
        status: d.status,
        assignee_user_id: d.assignee_user_id,
        assignee_first_name: d.assignee_first_name,
        assignee_last_name: d.assignee_last_name,
        assignee_username: d.assignee_username,
        version: d.version,
        last_event_seq: d.last_event_seq,
        created_at: d.created_at,
        updated_at: d.updated_at,
    }
}

/// The per-organization high-water mark of locally applied events.
pub struct SharedActivityCursor {
    pub organization_id: String,
    pub last_seq: i64,
    pub updated_at: i64,
}

impl SharedActivityCursor {
    /// Field-for-field copy.
    pub fn dup(&self) -> (r: Self)
        ensures
            r == *self,
    {
        SharedActivityCursor {
            organization_id: self.organization_id.clone(),
            last_seq: self.last_seq,
            updated_at: self.updated_at,
        }
    }
}

/// No two mirror rows share an id.
pub open spec fn mirror_ids_unique(tasks: Seq<SharedTask>) -> bool {
    forall|i: int, j: int|
        0 <= i < j < tasks.len() ==> (#[trigger] tasks[i]).id != (#[trigger] tasks[j]).id
}

/// Mirror row `i` exists and has the requested id.
pub open spec fn mirror_at(tasks: Seq<SharedTask>, i: int, id: u128) -> bool {
    0 <= i < tasks.len() && tasks[i].id == id
}

/// Some mirror row has the requested id.
pub open spec fn has_mirror(tasks: Seq<SharedTask>, id: u128) -> bool {
    exists|i: int| mirror_at(tasks, i, id)
}

/// The index of the mirror row with the requested id.
pub open spec fn mirror_index(tasks: Seq<SharedTask>, id: u128) -> int {
    choose|i: int| mirror_at(tasks, i, id)
}

/// The rows after an upsert: the row with the same id replaced, or the
/// new row appended.
pub open spec fn upsert_tasks(tasks: Seq<SharedTask>, row: SharedTask) -> Seq<SharedTask> {
    if has_mirror(tasks, row.id) {
        tasks.update(mirror_index(tasks, row.id), row)
    } else {
        tasks.push(row)
    }
}

/// The rows after a removal: the row with the id deleted, if present.
pub open spec fn remove_mirror(tasks: Seq<SharedTask>, id: u128) -> Seq<SharedTask> {
    if has_mirror(tasks, id) {
        tasks.remove(mirror_index(tasks, id))
    } else {
        tasks
    }
}

/// Two mirror indices carrying the same id are the same index.
pub proof fn lemma_unique_mirror_index(tasks: Seq<SharedTask>, i: int, j: int)
    requires
        mirror_ids_unique(tasks),
        0 <= i < tasks.len(),
        0 <= j < tasks.len(),
        tasks[i].id == tasks[j].id,
    ensures
        i == j,
{
    if i < j {
        assert(tasks[i].id != tasks[j].id);
    } else if j < i {
        assert(tasks[j].id != tasks[i].id);
    }
}

/// The local store for one organization: mirror rows plus the cursor.
pub struct ClientStore {
    pub organization_id: String,
    pub tasks: Vec<SharedTask>,
    pub cursor: Option<SharedActivityCursor>,
}

impl ClientStore {
    /// Mirror rows are unique by id.
    pub open spec fn wf(self) -> bool {
        mirror_ids_unique(self.tasks@)
    }

    /// An empty local store for an organization.
    pub fn new(organization_id: String) -> (r: Self)
        ensures
            r.wf(),
            r.organization_id == organization_id,
            r.tasks@.len() == 0,
            r.cursor is None,
    {
        ClientStore { organization_id, tasks: Vec::new(), cursor: None }
    }

    /// Finds the index of the mirror row with this id.
    fn find_index(&self, id: u128) -> (r: Option<usize>)
        requires
            self.wf(),
        ensures
            match r {
                Some(i) => i < self.tasks@.len() && self.tasks@[i as int].id == id && i as int
                    == mirror_index(self.tasks@, id),
                None => !has_mirror(self.tasks@, id),
            },
    {
        let n = self.tasks.len();
        let mut k: usize = 0;
        while k < n
            invariant
                self.wf(),
                n == self.tasks@.len(),
                0 <= k <= n,
                forall|i: int| 0 <= i < k ==> !mirror_at(self.tasks@, i, id),
            decreases n - k,
        {
            if self.tasks[k].id == id {
                proof {
                    assert(mirror_at(self.tasks@, k as int, id));
                    let w = mirror_index(self.tasks@, id);
                    assert(mirror_at(self.tasks@, w, id));
                    lemma_unique_mirror_index(self.tasks@, k as int, w);
                }
                return Some(k);
            }
            k += 1;
        }
        None
    }

    /// Inserts the row, or replaces the row with the same id.
    pub fn upsert(&mut self, data: SharedTaskInput) -> (r: SharedTask)
        requires
            old(self).wf(),
        ensures
            final(self).wf(),
            final(self).organization_id == old(self).organization_id,
            final(self).cursor == old(self).cursor,
            final(self).tasks@ == upsert_tasks(old(self).tasks@, task_of_input(data)),
            r == task_of_input(data),
    {
        let ghost tasks0 = self.tasks@;
        let row = SharedTask {
            id: data.id,
            organization_id: data.organization_id,
            project_id: data.project_id,
            github_repo_id: data.github_repo_id,
            title: data.title,
            description: data.description,
            status: data.status,
            assignee_user_id: data.assignee_user_id,
            assignee_first_name: data.assignee_first_name,
            assignee_last_name: data.assignee_last_name,
            assignee_username: data.assignee_username,
            version: data.version,
            last_event_seq: data.last_event_seq,
            created_at: data.created_at,
            updated_at: data.updated_at,
        };
        let result = row.dup();
        match self.find_index(row.id) {
            Some(i) => {
                proof {
                    assert(mirror_at(tasks0, i as int, row.id));
                }
                self.tasks.set(i, row);
                proof {
                    let ts = self.tasks@;
                    assert forall|a: int, b: int| 0 <= a < b < ts.len() implies (
                    #[trigger] ts[a]).id != (#[trigger] ts[b]).id by {
                        assert(tasks0[a].id != tasks0[b].id);
                        if a != i as int {
                            assert(ts[a] == tasks0[a]);
                        }
                        if b != i as int {
                            assert(ts[b] == tasks0[b]);
                        }
                    }
                }
            },
            None => {
                self.tasks.push(row);
                proof {
                    let ts = self.tasks@;
                    assert forall|a: int, b: int| 0 <= a < b < ts.len() implies (
                    #[trigger] ts[a]).id != (#[trigger] ts[b]).id by {
                        if b < tasks0.len() {
                            assert(tasks0[a].id != tasks0[b].id);
                        } else {
                            assert(ts[a] == tasks0[a]);
                            assert(!mirror_at(tasks0, a, ts[b].id));
                        }
                    }
                }
            },
        }
        result
    }

    /// Looks up a mirror row by id.
    pub fn find_by_id(&self, id: u128) -> (r: Option<SharedTask>)
        requires
            self.wf(),
        ensures
            r is Some <==> has_mirror(self.tasks@, id),
            match r {
                Some(t) => t == self.tasks@[mirror_index(self.tasks@, id)],
                None => true,
            },
    {
        match self.find_index(id) {
            Some(i) => {
                proof {
                    assert(mirror_at(self.tasks@, i as int, id));
                }
                Some(self.tasks[i].dup())
            },
            None => None,
        }
    }

    /// Deletes the mirror row with this id, if present.
    pub fn remove(&mut self, id: u128)
        requires
            old(self).wf(),
        ensures
            final(self).wf(),
            final(self).organization_id == old(self).organization_id,
            final(self).cursor == old(self).cursor,
            final(self).tasks@ == remove_mirror(old(self).tasks@, id),
    {
        let ghost tasks0 = self.tasks@;
        match self.find_index(id) {
            Some(i) => {
                proof {
                    assert(mirror_at(tasks0, i as int, id));
                }
                self.tasks.remove(i);
                proof {
                    let ts = self.tasks@;
                    assert forall|a: int, b: int| 0 <= a < b < ts.len() implies (
                    #[trigger] ts[a]).id != (#[trigger] ts[b]).id by {
                        let a0 = if a < i as int {
                            a
                        } else {
                            a + 1
                        };
                        let b0 = if b < i as int {
                            b
                        } else {
                            b + 1
                        };
                        assert(ts[a] == tasks0[a0]);
                        assert(ts[b] == tasks0[b0]);
                        assert(tasks0[a0].id != tasks0[b0].id);
                    }
                }
            },
            None => {},
        }
    }

    /// Deletes every mirror row whose id is listed.
    pub fn remove_many(&mut self, ids: &Vec<u128>)
        requires
            old(self).wf(),
        ensures
            final(self).wf(),
            final(self).organization_id == old(self).organization_id,
            final(self).cursor == old(self).cursor,
            final(self).tasks@ == remove_many_spec(old(self).tasks@, ids@),
    {
        let n = ids.len();
        let mut k: usize = 0;
        while k < n
            invariant
                self.wf(),
                n == ids@.len(),
                0 <= k <= n,
                self.organization_id == old(self).organization_id,
                self.cursor == old(self).cursor,
                self.tasks@ == remove_many_spec(old(self).tasks@, ids@.subrange(0, k as int)),
            decreases n - k,
        {
            let ghost sub0 = ids@.subrange(0, k as int);
            let ghost sub1 = ids@.subrange(0, k as int + 1);
            proof {
                assert(sub1.drop_last() =~= sub0);
                assert(sub1.last() == ids@[k as int]);
            }
            self.remove(ids[k]);
            k += 1;
        }
        proof {
            assert(ids@.subrange(0, n as int) =~= ids@);
        }
    }

    /// The stored cursor, if any.
    pub fn cursor_get(&self) -> (r: Option<SharedActivityCursor>)
        ensures
            r == self.cursor,
    {
        match &self.cursor {
            Some(c) => Some(c.dup()),
            None => None,
        }
    }

    /// Writes the cursor row for this organization.
    pub fn cursor_upsert(&mut self, last_seq: i64, now: i64) -> (r: SharedActivityCursor)
        requires
            old(self).wf(),
        ensures
            final(self).wf(),
            final(self).organization_id == old(self).organization_id,
            final(self).tasks == old(self).tasks,
            final(self).cursor == Some(r),
            r.organization_id == old(self).organization_id,
            r.last_seq == last_seq,
            r.updated_at == now,
    {
        let row = SharedActivityCursor {
            organization_id: self.organization_id.clone(),
            last_seq,
            updated_at: now,
        };
        let result = row.dup();
        self.cursor = Some(row);
        result
    }
}

/// The rows left after removing every listed id, in order.
pub open spec fn remove_many_spec(tasks: Seq<SharedTask>, ids: Seq<u128>) -> Seq<SharedTask>
    decreases ids.len(),
{
    if ids.len() == 0 {
        tasks
    } else {
        remove_mirror(remove_many_spec(tasks, ids.drop_last()), ids.last())
    }
}


/// The mirror fields derived from a remote task row, its assignee's user
/// data, and the local linkage values.
pub open spec fn convert_remote_task_spec(
    task: crate::task::SharedTask,
    user: Option<UserData>,
    project_id: Option<u128>,
    github_repo_id: Option<i64>,
    last_event_seq: Option<i64>,
) -> SharedTaskInput {
    SharedTaskInput {
        id: task.id,
        organization_id: task.organization_id,
        project_id,
        github_repo_id,
        title: task.title,
        description: task.description,
        status: task.status,
        assignee_user_id: task.assignee_user_id,
        assignee_first_name: match user {
            Some(u) => u.first_name,
            None => None,
        },
        assignee_last_name: match user {
            Some(u) => u.last_name,
            None => None,
        },
        assignee_username: match user {
            Some(u) => u.username,
            None => None,
        },
        version: task.version,
        last_event_seq,
        created_at: task.created_at,
        updated_at: task.updated_at,
    }
}

/// Builds the upsert input for a local mirror row from a remote task row.
pub fn convert_remote_task(
    task: &crate::task::SharedTask,
    user: Option<&UserData>,
    project_id: Option<u128>,
    github_repo_id: Option<i64>,
    last_event_seq: Option<i64>,
) -> (r: SharedTaskInput)
    ensures
        r == convert_remote_task_spec(
            *task,
            match user {
                Some(u) => Some(*u),
                None => None,
            },
            project_id,
            github_repo_id,
            last_event_seq,
        ),
{
    SharedTaskInput {
        id: task.id,
        organization_id: task.organization_id.clone(),
        project_id,
        github_repo_id,
        title: task.title.clone(),
        description: opt_string_dup(&task.description),
        status: task.status,
        assignee_user_id: opt_string_dup(&task.assignee_user_id),
        assignee_first_name: match user {
            Some(u) => opt_string_dup(&u.first_name),
            None => None,
        },
        assignee_last_name: match user {
            Some(u) => opt_string_dup(&u.last_name),
            None => None,
        },
        assignee_username: match user {
            Some(u) => opt_string_dup(&u.username),
            None => None,
        },
        version: task.version,
        last_event_seq,
        created_at: task.created_at,
        updated_at: task.updated_at,
    }
}

/// An event is skipped when the cursor already covers its sequence.
pub open spec fn should_skip(cursor: Option<SharedActivityCursor>, seq: i64) -> bool {
    match cursor {
        Some(c) => seq <= c.last_seq,
        None => false,
    }
}

/// The mirror row an event materializes locally.
pub open spec fn mirrored_task(e: ActivityEvent, project_id: Option<u128>) -> SharedTask {
    task_of_input(
        convert_remote_task_spec(
            e.payload.task,
            e.payload.user,
            project_id,
            Some(e.payload.project.github_repository_id),
            Some(e.seq),
        ),
    )
}

/// The mirror rows after one event: a deletion removes the row, any other
/// kind upserts the payload's snapshot.
pub open spec fn apply_tasks(tasks: Seq<SharedTask>, e: ActivityEvent, project_id: Option<u128>)
    -> Seq<SharedTask> {
    if e.event_type is TaskDeleted {
        remove_mirror(tasks, e.payload.task.id)
    } else {
        upsert_tasks(tasks, mirrored_task(e, project_id))
    }
}

/// The local state after one event: unchanged when the cursor covers it,
/// otherwise rows applied and the cursor advanced to the event's `seq`.
pub open spec fn apply_event_spec(
    org: String,
    tasks: Seq<SharedTask>,
    cursor: Option<SharedActivityCursor>,
    e: ActivityEvent,
    project_id: Option<u128>,
    now: i64,
) -> (Seq<SharedTask>, Option<SharedActivityCursor>) {
    if should_skip(cursor, e.seq) {
        (tasks, cursor)
    } else {
        (
            apply_tasks(tasks, e, project_id),
            Some(SharedActivityCursor { organization_id: org, last_seq: e.seq, updated_at: now }),
        )
    }
}

/// The local state after a whole log, applied in order.
pub open spec fn apply_log_spec(
    org: String,
    tasks: Seq<SharedTask>,
    cursor: Option<SharedActivityCursor>,
    log: Seq<ActivityEvent>,
    project_id: Option<u128>,
    now: i64,
) -> (Seq<SharedTask>, Option<SharedActivityCursor>)
    decreases log.len(),
{
    if log.len() == 0 {
        (tasks, cursor)
    } else {
        let prior = apply_log_spec(org, tasks, cursor, log.drop_last(), project_id, now);
        apply_event_spec(org, prior.0, prior.1, log.last(), project_id, now)
    }
}

/// Applying one event twice is applying it once: the first application
/// advances the cursor to the event's `seq`, so the second is skipped.
pub proof fn lemma_apply_event_idempotent(
    org: String,
    tasks: Seq<SharedTask>,
    cursor: Option<SharedActivityCursor>,
    e: ActivityEvent,
    project_id: Option<u128>,
    now: i64,
)
    ensures
        ({
            let once = apply_event_spec(org, tasks, cursor, e, project_id, now);
            apply_event_spec(org, once.0, once.1, e, project_id, now) == once
        }),
{
}

/// The log's events are in strictly increasing `seq` order.
pub open spec fn seqs_ascending(log: Seq<ActivityEvent>) -> bool {
    forall|i: int, j: int|
        0 <= i < j < log.len() ==> (#[trigger] log[i]).seq < (#[trigger] log[j]).seq
}

/// After applying an ascending log, the cursor covers every event in it.
pub proof fn lemma_apply_log_covers(
    org: String,
    tasks: Seq<SharedTask>,
    cursor: Option<SharedActivityCursor>,
    log: Seq<ActivityEvent>,
    project_id: Option<u128>,
    now: i64,
)
    requires
        seqs_ascending(log),
    ensures
        forall|k: int|
            0 <= k < log.len() ==> should_skip(
                apply_log_spec(org, tasks, cursor, log, project_id, now).1,
                (#[trigger] log[k]).seq,
            ),
    decreases log.len(),
{
    if log.len() > 0 {
        let rest = log.drop_last();
        assert(seqs_ascending(rest)) by {
            assert forall|i: int, j: int| 0 <= i < j < rest.len() implies (#[trigger] rest[i]).seq
                < (#[trigger] rest[j]).seq by {
                assert(rest[i] == log[i] && rest[j] == log[j]);
            }
        }
        lemma_apply_log_covers(org, tasks, cursor, rest, project_id, now);
        let prior = apply_log_spec(org, tasks, cursor, rest, project_id, now);
        let last = log.last();
        let result = apply_event_spec(org, prior.0, prior.1, last, project_id, now);
        assert forall|k: int| 0 <= k < log.len() implies should_skip(
            result.1,
            (#[trigger] log[k]).seq,
        ) by {
            if k < log.len() - 1 {
                assert(log[k] == rest[k]);
                assert(should_skip(prior.1, rest[k].seq));
                assert(log[k].seq < last.seq);
            }
        }
    }
}

/// A log entirely covered by the cursor leaves the state untouched.
pub proof fn lemma_apply_log_noop(
    org: String,
    tasks: Seq<SharedTask>,
    cursor: Option<SharedActivityCursor>,
    log: Seq<ActivityEvent>,
    project_id: Option<u128>,
    now: i64,
)
    requires
        forall|k: int| 0 <= k < log.len() ==> should_skip(cursor, (#[trigger] log[k]).seq),
    ensures
        apply_log_spec(org, tasks, cursor, log, project_id, now) == (tasks, cursor),
    decreases log.len(),
{
    if log.len() > 0 {
        let rest = log.drop_last();
        assert(forall|k: int| 0 <= k < rest.len() ==> should_skip(
            cursor,
            (#[trigger] rest[k]).seq,
        )) by {
            assert forall|k: int| 0 <= k < rest.len() implies should_skip(
                cursor,
                (#[trigger] rest[k]).seq,
            ) by {
                assert(rest[k] == log[k]);
            }
        }
        lemma_apply_log_noop(org, tasks, cursor, rest, project_id, now);
        assert(should_skip(cursor, log.last().seq));
    }
}

/// Idempotent apply: applying an ascending event log twice yields exactly
/// the state of applying it once, and the cursor never moves backward.
pub proof fn lemma_apply_log_idempotent(
    org: String,
    tasks: Seq<SharedTask>,
    cursor: Option<SharedActivityCursor>,
    log: Seq<ActivityEvent>,
    project_id: Option<u128>,
    now: i64,
)
    requires
        seqs_ascending(log),
    ensures
        ({
            let once = apply_log_spec(org, tasks, cursor, log, project_id, now);
            apply_log_spec(org, once.0, once.1, log, project_id, now) == once
        }),
{
    let once = apply_log_spec(org, tasks, cursor, log, project_id, now);
    lemma_apply_log_covers(org, tasks, cursor, log, project_id, now);
    lemma_apply_log_noop(org, once.0, once.1, log, project_id, now);
}

impl ClientStore {
    /// Applies one activity event exactly once: an event at or below the
    /// cursor is skipped; otherwise a deletion removes the mirror row, any
    /// other kind upserts the payload's snapshot, and the cursor advances
    /// to the event's `seq` in the same step. The cursor never moves
    /// backward.
    pub fn process_event(
        &mut self,
        event: &ActivityEvent,
        local_project_id: Option<u128>,
        now: i64,
    ) -> (applied: bool)
        requires
            old(self).wf(),
        ensures
            final(self).wf(),
            final(self).organization_id == old(self).organization_id,
            applied == !should_skip(old(self).cursor, event.seq),
            final(self).tasks@ == apply_event_spec(
                old(self).organization_id,
                old(self).tasks@,
                old(self).cursor,
                *event,
                local_project_id,
                now,
            ).0,
            final(self).cursor == apply_event_spec(
                old(self).organization_id,
                old(self).tasks@,
                old(self).cursor,
                *event,
                local_project_id,
                now,
            ).1,
            match (old(self).cursor, final(self).cursor) {
                (Some(c0), Some(c1)) => c1.last_seq >= c0.last_seq,
                (Some(c0), None) => false,
                (None, _) => true,
            },
    {
        let skip = match &self.cursor {
            Some(c) => event.seq <= c.last_seq,
            None => false,
        };
        if skip {
            return false;
        }
        match event.event_type {
            crate::event::EventType::TaskDeleted => {
                self.remove(event.payload.task.id);
            },
            _ => {
                let user_ref = match &event.payload.user {
                    Some(u) => Some(u),
                    None => None,
                };
                let input = convert_remote_task(
                    &event.payload.task,
                    user_ref,
                    local_project_id,
                    Some(event.payload.project.github_repository_id),
                    Some(event.seq),
                );
                proof {
                    assert(task_of_input(
                        convert_remote_task_spec(
                            event.payload.task,
                            event.payload.user,
                            local_project_id,
                            Some(event.payload.project.github_repository_id),
                            Some(event.seq),
                        ),
                    ) == mirrored_task(*event, local_project_id));
                }
                self.upsert(input);
            },
        }
        self.cursor_upsert(event.seq, now);
        true
    }
}


/// Base delay of the reconnect backoff, in milliseconds.
pub const WS_BACKOFF_BASE_DELAY_MS: u64 = 1000;

/// Cap of the reconnect backoff, in milliseconds.
pub const WS_BACKOFF_MAX_DELAY_MS: u64 = 30000;

/// The delay after one more failure: doubled, capped.
pub open spec fn next_backoff(cur: nat) -> nat {
    if 2 * cur > WS_BACKOFF_MAX_DELAY_MS {
        WS_BACKOFF_MAX_DELAY_MS as nat
    } else {
        2 * cur
    }
}

/// Exponential reconnect backoff: starts at the base delay, doubles on
/// each failure, caps at the maximum, resets on success.
pub struct Backoff {
    pub current_ms: u64,
}

impl Backoff {
    /// Starts at the base delay.
    pub fn new() -> (r: Self)
        ensures
            r.current_ms == WS_BACKOFF_BASE_DELAY_MS,
    {
        Backoff { current_ms: WS_BACKOFF_BASE_DELAY_MS }
    }

    /// Returns to the base delay after a successful connection.
    pub fn reset(&mut self)
        ensures
            final(self).current_ms == WS_BACKOFF_BASE_DELAY_MS,
    {
        self.current_ms = WS_BACKOFF_BASE_DELAY_MS;
    }

    /// Yields the delay to wait now and doubles the next one, capped at
    /// the maximum.
    pub fn advance(&mut self) -> (wait_ms: u64)
        ensures
            wait_ms == old(self).current_ms,
            final(self).current_ms == next_backoff(old(self).current_ms as nat),
    {
        let wait_ms = self.current_ms;
        self.current_ms = if wait_ms > WS_BACKOFF_MAX_DELAY_MS / 2 {
            WS_BACKOFF_MAX_DELAY_MS
        } else {
            wait_ms * 2
        };
        wait_ms
    }
}

/// How the client catches up before going live.
pub enum SyncCatchUpPlan {
    /// Take a REST bulk snapshot: first boot, or the backlog exceeds the
    /// threshold.
    BulkSnapshot,
    /// Page `GET /activity?after=cursor` until drained.
    Incremental { after: i64 },
}

/// Decides between a bulk snapshot and incremental paging: bulk when no
/// cursor is stored or when the server's latest sequence is more than
/// `threshold` ahead of it.
pub fn plan_client_catch_up(last_seq: Option<i64>, latest_seq: Option<i64>, threshold: i64) -> (r:
    SyncCatchUpPlan)
    requires
        match last_seq {
            Some(l) => l >= 0,
            None => true,
        },
        match latest_seq {
            Some(l) => l >= 0,
            None => true,
        },
        threshold >= 0,
    ensures
        match last_seq {
            None => r is BulkSnapshot,
            Some(l) => match latest_seq {
                Some(latest) => if latest - l > threshold {
                    r is BulkSnapshot
                } else {
                    r matches SyncCatchUpPlan::Incremental { after } && after == l
                },
                None => r matches SyncCatchUpPlan::Incremental { after } && after == l,
            },
        },
{
    match last_seq {
        None => SyncCatchUpPlan::BulkSnapshot,
        Some(l) => match latest_seq {
            Some(latest) => if latest - l > threshold {
                SyncCatchUpPlan::BulkSnapshot
            } else {
                SyncCatchUpPlan::Incremental { after: l }
            },
            None => SyncCatchUpPlan::Incremental { after: l },
        },
    }
}

/// What the client does with one server frame.
pub enum ClientWsAction {
    /// Apply the event through the processor and advance the cursor.
    ProcessActivity(ActivityEvent),
    /// The server dropped the backlog (or erred): close the socket and
    /// restart from catch-up.
    CloseAndResync { message: String },
}

/// Maps a server frame to the client's reaction: activity is processed,
/// an error frame closes the socket and triggers a resync.
pub fn interpret_server_message(msg: crate::session::ServerMessage) -> (r: ClientWsAction)
    ensures
        match msg {
            crate::session::ServerMessage::Activity(e) => r matches
                ClientWsAction::ProcessActivity(a) && a == e,
            crate::session::ServerMessage::Error { message } => r matches
                ClientWsAction::CloseAndResync { message: m } && m == message,
        },
{
    match msg {
        crate::session::ServerMessage::Activity(e) => ClientWsAction::ProcessActivity(e),
        crate::session::ServerMessage::Error { message } => ClientWsAction::CloseAndResync {
            message,
        },
    }
}

/// The supervised synchronizer's local state: the mirror store and the
/// reconnect backoff, with the bulk-sync threshold it decides by.
pub struct RemoteSync {
    pub store: ClientStore,
    pub backoff: Backoff,
    pub bulk_sync_threshold: i64,
}

impl RemoteSync {
    /// A synchronizer over a local store.
    pub fn new(store: ClientStore, bulk_sync_threshold: i64) -> (r: Self)
        ensures
            r.store == store,
            r.backoff.current_ms == WS_BACKOFF_BASE_DELAY_MS,
            r.bulk_sync_threshold == bulk_sync_threshold,
    {
        RemoteSync { store, backoff: Backoff::new(), bulk_sync_threshold }
    }

    /// Decides how to catch up from the stored cursor, given the server's
    /// latest sequence when known.
    pub fn catch_up_plan(&self, latest_seq: Option<i64>) -> (r: SyncCatchUpPlan)
        requires
            match self.store.cursor {
                Some(c) => c.last_seq >= 0,
                None => true,
            },
            match latest_seq {
                Some(l) => l >= 0,
                None => true,
            },
            self.bulk_sync_threshold >= 0,
        ensures
            match self.store.cursor {
                None => r is BulkSnapshot,
                Some(c) => match latest_seq {
                    Some(latest) => if latest - c.last_seq > self.bulk_sync_threshold {
                        r is BulkSnapshot
                    } else {
                        r matches SyncCatchUpPlan::Incremental { after } && after == c.last_seq
                    },
                    None => r matches SyncCatchUpPlan::Incremental { after } && after
                        == c.last_seq,
                },
            },
    {
        let last_seq = match &self.store.cursor {
            Some(c) => Some(c.last_seq),
            None => None,
        };
        plan_client_catch_up(last_seq, latest_seq, self.bulk_sync_threshold)
    }

    /// On a successful connection the backoff resets.
    pub fn on_ws_connected(&mut self)
        ensures
            final(self).store == old(self).store,
            final(self).bulk_sync_threshold == old(self).bulk_sync_threshold,
            final(self).backoff.current_ms == WS_BACKOFF_BASE_DELAY_MS,
    {
        self.backoff.reset();
    }

    /// On a closed or failed connection: the delay to wait before
    /// reconnecting, doubling the next one.
    pub fn on_ws_closed(&mut self) -> (wait_ms: u64)
        ensures
            final(self).store == old(self).store,
            final(self).bulk_sync_threshold == old(self).bulk_sync_threshold,
            wait_ms == old(self).backoff.current_ms,
            final(self).backoff.current_ms == next_backoff(old(self).backoff.current_ms as nat),
    {
        self.backoff.advance()
    }
}

/// The local working-task fields synchronized from a mirror row.
pub struct SyncTask {
    pub shared_task_id: u128,
    pub project_id: u128,
    pub title: String,
    pub description: Option<String>,
    pub status: TaskStatus,
}

/// The optional string equals the current user's id.
pub open spec fn is_current_user(candidate: Option<String>, current: Option<String>) -> bool {
    match (candidate, current) {
        (Some(a), Some(c)) => a@ == c@,
        _ => false,
    }
}

/// Plans the local working-task sync for a mirror row: nothing without a
/// local project link; otherwise the fields to write, creating the task
/// only when the current user is the assignee but not the creator.
pub fn local_sync_plan(
    shared_task: &SharedTask,
    current_user_id: Option<&String>,
    creator_user_id: Option<&String>,
) -> (r: Option<(SyncTask, bool)>)
    ensures
        r is Some <==> shared_task.project_id is Some,
        r matches Some((st, create)) ==> {
            &&& st.shared_task_id == shared_task.id
            &&& Some(st.project_id) == shared_task.project_id
            &&& st.title == shared_task.title
            &&& st.description == shared_task.description
            &&& st.status == shared_task.status
            &&& create == (is_current_user(
                shared_task.assignee_user_id,
                match current_user_id {
                    Some(c) => Some(*c),
                    None => None,
                },
            ) && !is_current_user(
                match creator_user_id {
                    Some(c) => Some(*c),
                    None => None,
                },
                match current_user_id {
                    Some(c) => Some(*c),
                    None => None,
                },
            ))
        },
{
    let project_id = match shared_task.project_id {
        Some(p) => p,
        None => {
            return None;
        },
    };
    let assignee_is_current_user = match (&shared_task.assignee_user_id, current_user_id) {
        (Some(assignee), Some(current)) => *assignee == *current,
        _ => false,
    };
    let creator_is_current_user = match (creator_user_id, current_user_id) {
        (Some(creator), Some(current)) => *creator == *current,
        _ => false,
    };
    let create_task_if_not_exists = assignee_is_current_user && !creator_is_current_user;
    Some(
        (
            SyncTask {
                shared_task_id: shared_task.id,
                project_id,
                title: shared_task.title.clone(),
                description: opt_string_dup(&shared_task.description),
                status: shared_task.status,
            },
            create_task_if_not_exists,
        ),
    )
}


/// The rows of one organization, in store order.
pub open spec fn tasks_of_org(tasks: Seq<SharedTask>, org: Seq<char>) -> Seq<SharedTask>
    decreases tasks.len(),
{
    if tasks.len() == 0 {
        Seq::empty()
    } else {
        let rest = tasks_of_org(tasks.drop_last(), org);
        if tasks.last().organization_id@ == org {
            rest.push(tasks.last())
        } else {
            rest
        }
    }
}

/// The rows linked to one local project, in store order.
pub open spec fn tasks_of_project(tasks: Seq<SharedTask>, project_id: u128) -> Seq<SharedTask>
    decreases tasks.len(),
{
    if tasks.len() == 0 {
        Seq::empty()
    } else {
        let rest = tasks_of_project(tasks.drop_last(), project_id);
        if tasks.last().project_id == Some(project_id) {
            rest.push(tasks.last())
        } else {
            rest
        }
    }
}

/// A row is back-linked when it records this repository but not this
/// project.
pub open spec fn link_applies(t: SharedTask, repo_id: i64, project_id: u128) -> bool {
    t.github_repo_id == Some(repo_id) && t.project_id != Some(project_id)
}

/// The row after back-linking.
pub open spec fn linked_row(t: SharedTask, project_id: u128, now: i64) -> SharedTask {
    SharedTask { project_id: Some(project_id), updated_at: now, ..t }
}

/// All rows after the back-link update.
pub open spec fn link_tasks(tasks: Seq<SharedTask>, repo_id: i64, project_id: u128, now: i64)
    -> Seq<SharedTask> {
    Seq::new(
        tasks.len(),
        |i: int|
            if link_applies(tasks[i], repo_id, project_id) {
                linked_row(tasks[i], project_id, now)
            } else {
                tasks[i]
            },
    )
}

/// The rows the back-link update changed, post-state, in store order.
pub open spec fn linked_changed(tasks: Seq<SharedTask>, repo_id: i64, project_id: u128, now: i64)
    -> Seq<SharedTask>
    decreases tasks.len(),
{
    if tasks.len() == 0 {
        Seq::empty()
    } else {
        let rest = linked_changed(tasks.drop_last(), repo_id, project_id, now);
        if link_applies(tasks.last(), repo_id, project_id) {
            rest.push(linked_row(tasks.last(), project_id, now))
        } else {
            rest
        }
    }
}

impl ClientStore {
    /// All rows of the given organization.
    pub fn list_by_organization(&self, organization_id: &String) -> (r: Vec<SharedTask>)
        requires
            self.wf(),
        ensures
            r@ == tasks_of_org(self.tasks@, organization_id@),
    {
        let n = self.tasks.len();
        let mut r: Vec<SharedTask> = Vec::new();
        let mut k: usize = 0;
        while k < n
            invariant
                self.wf(),
                n == self.tasks@.len(),
                0 <= k <= n,
                r@ == tasks_of_org(self.tasks@.subrange(0, k as int), organization_id@),
            decreases n - k,
        {
            proof {
                let sub1 = self.tasks@.subrange(0, k as int + 1);
                assert(sub1.drop_last() =~= self.tasks@.subrange(0, k as int));
                assert(sub1.last() == self.tasks@[k as int]);
            }
            let t = &self.tasks[k];
            if t.organization_id == *organization_id {
                r.push(t.dup());
            }
            k += 1;
        }
        proof {
            assert(self.tasks@.subrange(0, n as int) =~= self.tasks@);
        }
        r
    }

    /// All rows linked to the given local project.
    pub fn list_by_project_id(&self, project_id: u128) -> (r: Vec<SharedTask>)
        requires
            self.wf(),
        ensures
            r@ == tasks_of_project(self.tasks@, project_id),
    {
        let n = self.tasks.len();
        let mut r: Vec<SharedTask> = Vec::new();
        let mut k: usize = 0;
        while k < n
            invariant
                self.wf(),
                n == self.tasks@.len(),
                0 <= k <= n,
                r@ == tasks_of_project(self.tasks@.subrange(0, k as int), project_id),
            decreases n - k,
        {
            proof {
                let sub1 = self.tasks@.subrange(0, k as int + 1);
                assert(sub1.drop_last() =~= self.tasks@.subrange(0, k as int));
                assert(sub1.last() == self.tasks@[k as int]);
            }
            let t = &self.tasks[k];
            let is_linked = match t.project_id {
                Some(p) => p == project_id,
                None => false,
            };
            if is_linked {
                r.push(t.dup());
            }
            k += 1;
        }
        proof {
            assert(self.tasks@.subrange(0, n as int) =~= self.tasks@);
        }
        r
    }

    /// Back-links every orphan row recording this repository to the local
    /// project, in one pass, and returns the rows it changed.
    pub fn link_to_project_by_repo_id(&mut self, github_repo_id: i64, project_id: u128, now: i64)
        -> (r: Vec<SharedTask>)
        requires
            old(self).wf(),
        ensures
            final(self).wf(),
            final(self).organization_id == old(self).organization_id,
            final(self).cursor == old(self).cursor,
            final(self).tasks@ == link_tasks(old(self).tasks@, github_repo_id, project_id, now),
            r@ == linked_changed(old(self).tasks@, github_repo_id, project_id, now),
    {
        let ghost tasks0 = self.tasks@;
        let n = self.tasks.len();
        let mut r: Vec<SharedTask> = Vec::new();
        let mut k: usize = 0;
        while k < n
            invariant
                n == self.tasks@.len(),
                tasks0.len() == n,
                0 <= k <= n,
                self.organization_id == old(self).organization_id,
                self.cursor == old(self).cursor,
                forall|i: int| k <= i < n ==> self.tasks@[i] == tasks0[i],
                forall|i: int|
                    0 <= i < k ==> self.tasks@[i] == (if link_applies(
                        tasks0[i],
                        github_repo_id,
                        project_id,
                    ) {
                        linked_row(tasks0[i], project_id, now)
                    } else {
                        tasks0[i]
                    }),
                r@ == linked_changed(tasks0.subrange(0, k as int), github_repo_id, project_id, now),
            decreases n - k,
        {
            proof {
                let sub1 = tasks0.subrange(0, k as int + 1);
                assert(sub1.drop_last() =~= tasks0.subrange(0, k as int));
                assert(sub1.last() == tasks0[k as int]);
            }
            let applies = {
                let t = &self.tasks[k];
                (match t.github_repo_id {
                    Some(g) => g == github_repo_id,
                    None => false,
                }) && (match t.project_id {
                    Some(p) => p != project_id,
                    None => true,
                })
            };
            if applies {
                let updated = {
                    let t = &self.tasks[k];
                    SharedTask {
                        id: t.id,
                        organization_id: t.organization_id.clone(),
                        project_id: Some(project_id),
                        github_repo_id: t.github_repo_id,
                        title: t.title.clone(),
                        description: opt_string_dup(&t.description),
                        status: t.status,
                        assignee_user_id: opt_string_dup(&t.assignee_user_id),
                        assignee_first_name: opt_string_dup(&t.assignee_first_name),
                        assignee_last_name: opt_string_dup(&t.assignee_last_name),
                        assignee_username: opt_string_dup(&t.assignee_username),
                        version: t.version,
                        last_event_seq: t.last_event_seq,
                        created_at: t.created_at,
                        updated_at: now,
                    }
                };
                proof {
                    assert(updated == linked_row(tasks0[k as int], project_id, now));
                }
                r.push(updated.dup());
                self.tasks.set(k, updated);
            }
            k += 1;
        }
        proof {
            assert(tasks0.subrange(0, n as int) =~= tasks0);
            assert(self.tasks@ =~= link_tasks(tasks0, github_repo_id, project_id, now));
            let ts = self.tasks@;
            assert forall|a: int, b: int| 0 <= a < b < ts.len() implies (#[trigger] ts[a]).id != (
            #[trigger] ts[b]).id by {
                assert(tasks0[a].id != tasks0[b].id);
                assert(ts[a].id == tasks0[a].id);
                assert(ts[b].id == tasks0[b].id);
            }
        }
        r
    }
}

} // verus!
