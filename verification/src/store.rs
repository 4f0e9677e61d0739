//! The per-organization server store: task rows, the append-only activity
//! log, and the sequence counter that orders it.
//!
//! The activity log is gapless: event `i` (zero-based) carries `seq == i + 1`,
//! and `last_seq` always equals the log's length. Every accepted mutation
//! appends exactly one event whose payload holds the post-mutation task
//! state, so the latest event for a task always mirrors the task row.

use vstd::prelude::*;

use crate::event::{ActivityEvent, EventType, SharedTaskActivityPayload};
use crate::auth::{check_membership, ClerkOrganizationMembership, ClerkServiceError, ClerkUser, IdentityError};
use crate::identity::{opt_string_dup, opt_user_dup, User, UserData};
use vstd::string::StringExecFns;
use crate::project::{Project, ProjectMetadata};
use crate::task::{
    ensure_text_size, text_size_ok, CreateSharedTaskData, SharedTask, SharedTaskError,
    SharedTaskWithUser, TaskStatus, UpdateSharedTaskData,
};
use vstd::pervasive::VecAdditionalExecFns;

verus! {

/// No two tasks share an id.
pub open spec fn task_ids_unique(tasks: Seq<SharedTask>) -> bool {
    forall|i: int, j: int|
        0 <= i < j < tasks.len() ==> (#[trigger] tasks[i]).id != (#[trigger] tasks[j]).id
}

/// Task `i` exists, has the requested id, and is not soft-deleted.
pub open spec fn live_task_at(tasks: Seq<SharedTask>, i: int, id: u128) -> bool {
    &&& 0 <= i < tasks.len()
    &&& tasks[i].id == id
    &&& tasks[i].deleted_at is None
}

/// Some non-deleted task has the requested id.
pub open spec fn has_live_task(tasks: Seq<SharedTask>, id: u128) -> bool {
    exists|i: int| live_task_at(tasks, i, id)
}

/// The task's version equals the caller-supplied one, if one was supplied.
pub open spec fn version_matches(t: SharedTask, version: Option<i64>) -> bool {
    match version {
        Some(v) => t.version == v,
        None => true,
    }
}

/// The task's current assignee is exactly this user.
pub open spec fn assignee_is(t: SharedTask, user: Seq<char>) -> bool {
    match t.assignee_user_id {
        Some(a) => a@ == user,
        None => false,
    }
}

/// Project `i` exists and has the requested id.
pub open spec fn project_at(projects: Seq<Project>, i: int, id: u128) -> bool {
    0 <= i < projects.len() && projects[i].id == id
}

/// Some project has the requested id.
pub open spec fn has_project(projects: Seq<Project>, id: u128) -> bool {
    exists|i: int| project_at(projects, i, id)
}

/// The project with the requested id, when one exists.
pub open spec fn project_with_id(projects: Seq<Project>, id: u128) -> Project {
    projects[choose|i: int| project_at(projects, i, id)]
}

/// Project `i` exists and records the requested GitHub repository.
pub open spec fn project_repo_at(projects: Seq<Project>, i: int, repo_id: i64) -> bool {
    0 <= i < projects.len() && projects[i].metadata.github_repository_id == repo_id
}

/// Some project records the requested GitHub repository.
pub open spec fn has_project_repo(projects: Seq<Project>, repo_id: i64) -> bool {
    exists|i: int| project_repo_at(projects, i, repo_id)
}

/// The project recording the requested GitHub repository, when one exists.
pub open spec fn project_with_repo(projects: Seq<Project>, repo_id: i64) -> Project {
    projects[choose|i: int| project_repo_at(projects, i, repo_id)]
}

/// User `i` exists and has the requested id.
pub open spec fn user_at(users: Seq<User>, i: int, id: Seq<char>) -> bool {
    0 <= i < users.len() && users[i].id@ == id
}

/// Some user row has the requested id.
pub open spec fn has_user(users: Seq<User>, id: Seq<char>) -> bool {
    exists|i: int| user_at(users, i, id)
}

/// The payload-facing subset of a user row.
pub open spec fn user_data_of(u: User) -> UserData {
    UserData { id: u.id, first_name: u.first_name, last_name: u.last_name, username: u.username }
}

/// What a payload's `user` field holds for a given optional assignee:
/// the user row's data when the assignee is set and known, `None` otherwise.
pub open spec fn user_lookup(users: Seq<User>, assignee: Option<String>) -> Option<UserData> {
    match assignee {
        Some(a) => if has_user(users, a@) {
            Some(user_data_of(users[choose|i: int| user_at(users, i, a@)]))
        } else {
            None
        },
        None => None,
    }
}

/// The latest activity event about a task's id carries exactly that
/// task's state.
pub open spec fn task_matches_latest(activity: Seq<ActivityEvent>, t: SharedTask) -> bool {
    exists|i: int|
        {
            &&& 0 <= i < activity.len()
            &&& (#[trigger] activity[i]).payload.task == t
            &&& forall|j: int|
                i < j < activity.len() ==> (#[trigger] activity[j]).payload.task.id != t.id
        }
}

/// Appending an event about a different task keeps a task's latest event.
pub proof fn lemma_latest_preserved_on_append(
    activity: Seq<ActivityEvent>,
    e: ActivityEvent,
    t: SharedTask,
)
    requires
        task_matches_latest(activity, t),
        e.payload.task.id != t.id,
    ensures
        task_matches_latest(activity.push(e), t),
{
    let i = choose|i: int|
        {
            &&& 0 <= i < activity.len()
            &&& (#[trigger] activity[i]).payload.task == t
            &&& forall|j: int|
                i < j < activity.len() ==> (#[trigger] activity[j]).payload.task.id != t.id
        };
    let pushed = activity.push(e);
    assert(pushed[i].payload.task == t);
    assert(forall|j: int| i < j < pushed.len() ==> (#[trigger] pushed[j]).payload.task.id != t.id)
        by {
        assert forall|j: int| i < j < pushed.len() implies (#[trigger] pushed[j]).payload.task.id
            != t.id by {
            if j < activity.len() {
                assert(pushed[j] == activity[j]);
            } else {
                assert(pushed[j] == e);
            }
        }
    }
}

/// An appended event is the latest one for the task it carries.
pub proof fn lemma_latest_self_on_append(activity: Seq<ActivityEvent>, e: ActivityEvent)
    ensures
        task_matches_latest(activity.push(e), e.payload.task),
{
    let pushed = activity.push(e);
    let i = activity.len() as int;
    assert(pushed[i].payload.task == e.payload.task);
    assert(forall|j: int| i < j < pushed.len() ==> (#[trigger] pushed[j]).payload.task.id
        != e.payload.task.id);
}

/// Result of the consistent bulk snapshot.
pub struct BulkFetchResult {
    pub tasks: Vec<SharedTaskActivityPayload>,
    pub deleted_task_ids: Vec<u128>,
    pub latest_seq: Option<i64>,
}

/// The state of one organization: its rows and its activity log.
pub struct OrgStore {
    pub organization_id: String,
    pub slug: String,
    pub users: Vec<User>,
    pub members: Vec<String>,
    pub projects: Vec<Project>,
    pub tasks: Vec<SharedTask>,
    pub activity: Vec<ActivityEvent>,
    pub last_seq: i64,
}

impl OrgStore {
    /// The activity log is gapless from 1 and the counter equals its length.
    pub open spec fn activity_wf(self) -> bool {
        &&& self.last_seq == self.activity@.len()
        &&& forall|i: int|
            0 <= i < self.activity@.len() ==> (#[trigger] self.activity@[i]).seq == i + 1
        &&& forall|i: int|
            0 <= i < self.activity@.len() ==> (#[trigger] self.activity@[i]).organization_id@
                == self.organization_id@
    }

    /// Task rows are unique by id, belong to this organization, and have
    /// versions between 1 and the counter.
    pub open spec fn tasks_wf(self) -> bool {
        &&& task_ids_unique(self.tasks@)
        &&& forall|i: int|
            0 <= i < self.tasks@.len() ==> (#[trigger] self.tasks@[i]).organization_id@
                == self.organization_id@
        &&& forall|i: int|
            0 <= i < self.tasks@.len() ==> 1 <= (#[trigger] self.tasks@[i]).version
                <= self.last_seq
    }

    /// User rows are unique by id.
    pub open spec fn users_wf(self) -> bool {
        forall|i: int, j: int|
            0 <= i < j < self.users@.len() ==> (#[trigger] self.users@[i]).id@
                != (#[trigger] self.users@[j]).id@
    }

    /// Project rows are unique by id and by GitHub repository id.
    pub open spec fn projects_wf(self) -> bool {
        &&& forall|i: int, j: int|
            0 <= i < j < self.projects@.len() ==> (#[trigger] self.projects@[i]).id
                != (#[trigger] self.projects@[j]).id
        &&& forall|i: int, j: int|
            0 <= i < j < self.projects@.len()
                ==> (#[trigger] self.projects@[i]).metadata.github_repository_id
                != (#[trigger] self.projects@[j]).metadata.github_repository_id
    }

    /// Every task row is mirrored by the latest activity event about it.
    pub open spec fn coupled(self) -> bool {
        forall|k: int|
            0 <= k < self.tasks@.len() ==> task_matches_latest(
                self.activity@,
                #[trigger] self.tasks@[k],
            )
    }

    /// Well-formedness of the whole store.
    pub open spec fn wf(self) -> bool {
        &&& self.activity_wf()
        &&& self.tasks_wf()
        &&& self.users_wf()
        &&& self.projects_wf()
        &&& self.coupled()
    }

    /// An empty store for an organization.
    pub fn new(organization_id: String, slug: String) -> (r: Self)
        ensures
            r.wf(),
            r.organization_id == organization_id,
            r.slug == slug,
            r.tasks@.len() == 0,
            r.activity@.len() == 0,
            r.users@.len() == 0,
            r.members@.len() == 0,
            r.projects@.len() == 0,
            r.last_seq == 0,
    {
        OrgStore {
            organization_id,
            slug,
            users: Vec::new(),
            members: Vec::new(),
            projects: Vec::new(),
            tasks: Vec::new(),
            activity: Vec::new(),
            last_seq: 0,
        }
    }

    /// Looks up a non-deleted task by id.
    pub fn find_by_id(&self, task_id: u128) -> (r: Option<SharedTask>)
        requires
            self.wf(),
        ensures
            r is Some <==> has_live_task(self.tasks@, task_id),
            match r {
                Some(t) => exists|i: int|
                    live_task_at(self.tasks@, i, task_id) && t == self.tasks@[i],
                None => true,
            },
    {
        let n = self.tasks.len();
        let mut k: usize = 0;
        while k < n
            invariant
                self.wf(),
                n == self.tasks@.len(),
                0 <= k <= n,
                forall|i: int| 0 <= i < k ==> !live_task_at(self.tasks@, i, task_id),
            decreases n - k,
        {
            let t = &self.tasks[k];
            if t.id == task_id && t.deleted_at.is_none() {
                proof {
                    assert(live_task_at(self.tasks@, k as int, task_id));
                }
                return Some(t.dup());
            }
            k += 1;
        }
        None
    }

    /// Looks up a user row and extracts its payload-facing data.
    pub fn fetch_user(&self, user_id: &String) -> (r: Option<UserData>)
        requires
            self.wf(),
        ensures
            r == user_lookup(self.users@, Some(*user_id)),
    {
        let n = self.users.len();
        let mut k: usize = 0;
        while k < n
            invariant
                self.wf(),
                n == self.users@.len(),
                0 <= k <= n,
                forall|i: int| 0 <= i < k ==> !user_at(self.users@, i, user_id@),
            decreases n - k,
        {
            let u = &self.users[k];
            if u.id == *user_id {
                proof {
                    assert(user_at(self.users@, k as int, user_id@));
                    let w = choose|i: int| user_at(self.users@, i, user_id@);
                    if w != k as int {
                        if w < k as int {
                            assert(!user_at(self.users@, w, user_id@));
                        } else {
                            assert(self.users@[k as int].id@ != self.users@[w].id@);
                        }
                    }
                }
                return Some(u.data());
            }
            k += 1;
        }
        None
    }

    /// The payload `user` field for an optional assignee.
    pub fn fetch_user_opt(&self, assignee: &Option<String>) -> (r: Option<UserData>)
        requires
            self.wf(),
        ensures
            r == user_lookup(self.users@, *assignee),
    {
        match assignee {
            Some(a) => self.fetch_user(a),
            None => None,
        }
    }

    /// Looks up a project row by id.
    pub fn find_project(&self, project_id: u128) -> (r: Option<Project>)
        requires
            self.wf(),
        ensures
            r is Some <==> has_project(self.projects@, project_id),
            match r {
                Some(p) => p == project_with_id(self.projects@, project_id),
                None => true,
            },
    {
        let n = self.projects.len();
        let mut k: usize = 0;
        while k < n
            invariant
                self.wf(),
                n == self.projects@.len(),
                0 <= k <= n,
                forall|i: int| 0 <= i < k ==> !project_at(self.projects@, i, project_id),
            decreases n - k,
        {
            let p = &self.projects[k];
            if p.id == project_id {
                proof {
                    assert(project_at(self.projects@, k as int, project_id));
                    let w = choose|i: int| project_at(self.projects@, i, project_id);
                    if w < k as int {
                        assert(!project_at(self.projects@, w, project_id));
                    } else if w > k as int {
                        assert(self.projects@[k as int].id != self.projects@[w].id);
                    }
                }
                return Some(p.dup());
            }
            k += 1;
        }
        None
    }

    /// Looks up a project row by GitHub repository id.
    pub fn find_project_by_repo(&self, repo_id: i64) -> (r: Option<Project>)
        requires
            self.wf(),
        ensures
            r is Some <==> has_project_repo(self.projects@, repo_id),
            match r {
                Some(p) => p == project_with_repo(self.projects@, repo_id),
                None => true,
            },
    {
        let n = self.projects.len();
        let mut k: usize = 0;
        while k < n
            invariant
                self.wf(),
                n == self.projects@.len(),
                0 <= k <= n,
                forall|i: int| 0 <= i < k ==> !project_repo_at(self.projects@, i, repo_id),
            decreases n - k,
        {
            let p = &self.projects[k];
            if p.metadata.github_repository_id == repo_id {
                proof {
                    assert(project_repo_at(self.projects@, k as int, repo_id));
                    let w = choose|i: int| project_repo_at(self.projects@, i, repo_id);
                    if w < k as int {
                        assert(!project_repo_at(self.projects@, w, repo_id));
                    } else if w > k as int {
                        assert(self.projects@[k as int].metadata.github_repository_id
                            != self.projects@[w].metadata.github_repository_id);
                    }
                }
                return Some(p.dup());
            }
            k += 1;
        }
        None
    }
}

/// The slice of an activity log selected by `seq > after LIMIT limit`.
pub open spec fn fetch_since_window(activity: Seq<ActivityEvent>, after: i64, limit: i64)
    -> Seq<ActivityEvent> {
    let start = if after < 0 {
        0
    } else if after > activity.len() {
        activity.len() as int
    } else {
        after as int
    };
    let want = if limit < 0 {
        0
    } else {
        limit as int
    };
    let end = if start + want > activity.len() {
        activity.len() as int
    } else {
        start + want
    };
    activity.subrange(start, end)
}

impl OrgStore {
    /// Returns up to `limit` events with `seq` greater than `after`
    /// (unset means from the beginning), in ascending `seq` order.
    pub fn fetch_since(&self, after: Option<i64>, limit: i64) -> (r: Vec<ActivityEvent>)
        requires
            self.wf(),
        ensures
            r@ == fetch_since_window(
                self.activity@,
                match after {
                    Some(a) => a,
                    None => 0,
                },
                limit,
            ),
    {
        let after_v: i64 = match after {
            Some(a) => if a < 0 {
                0
            } else {
                a
            },
            None => 0,
        };
        let n = self.activity.len();
        let ghost window = fetch_since_window(
            self.activity@,
            match after {
                Some(a) => a,
                None => 0,
            },
            limit,
        );
        let mut r: Vec<ActivityEvent> = Vec::new();
        if limit <= 0 {
            assert(r@ =~= window);
            return r;
        }
        if after_v >= self.last_seq {
            assert(r@ =~= window);
            return r;
        }
        let start: usize = after_v as usize;
        let mut k: usize = start;
        let mut count: i64 = 0;
        while k < n && count < limit
            invariant
                self.wf(),
                n == self.activity@.len(),
                0 < limit,
                start <= k <= n,
                count == k - start,
                count <= limit,
                start == after_v as int,
                0 <= after_v <= self.last_seq,
                r@ == self.activity@.subrange(start as int, k as int),
            decreases n - k,
        {
            let e = &self.activity[k];
            r.push(e.dup());
            proof {
                assert(r@ =~= self.activity@.subrange(start as int, k as int + 1));
            }
            k += 1;
            count += 1;
        }
        proof {
            assert(r@ =~= window);
        }
        r
    }
}


/// The row condition of the task-update statement: same id, not deleted,
/// version agreeing with the caller's (when supplied), and the acting user
/// being the current assignee.
pub open spec fn update_row_matches(
    t: SharedTask,
    task_id: u128,
    version: Option<i64>,
    acting: Seq<char>,
) -> bool {
    &&& t.id == task_id
    &&& t.deleted_at is None
    &&& version_matches(t, version)
    &&& assignee_is(t, acting)
}

/// Task `i` satisfies the update row condition.
pub open spec fn update_match_at(
    tasks: Seq<SharedTask>,
    i: int,
    task_id: u128,
    version: Option<i64>,
    acting: Seq<char>,
) -> bool {
    0 <= i < tasks.len() && update_row_matches(tasks[i], task_id, version, acting)
}

/// Some task satisfies the update row condition.
pub open spec fn has_update_match(
    tasks: Seq<SharedTask>,
    task_id: u128,
    version: Option<i64>,
    acting: Seq<char>,
) -> bool {
    exists|i: int| update_match_at(tasks, i, task_id, version, acting)
}

/// The index of the task satisfying the update row condition.
pub open spec fn update_match_index(
    tasks: Seq<SharedTask>,
    task_id: u128,
    version: Option<i64>,
    acting: Seq<char>,
) -> int {
    choose|i: int| update_match_at(tasks, i, task_id, version, acting)
}

/// The task row after an accepted update: text and status merged in,
/// version bumped by one, `updated_at` refreshed.
pub open spec fn updated_task(t: SharedTask, data: UpdateSharedTaskData, now: i64) -> SharedTask {
    SharedTask {
        title: match data.title {
            Some(x) => x,
            None => t.title,
        },
        description: match data.description {
            Some(x) => Some(x),
            None => t.description,
        },
        status: match data.status {
            Some(x) => x,
            None => t.status,
        },
        version: (t.version + 1) as i64,
        updated_at: now,
        ..t
    }
}

/// The activity event appended by an accepted mutation.
pub open spec fn mutation_event(
    organization_id: String,
    seq: i64,
    event_id: u128,
    event_type: EventType,
    created_at: i64,
    task: SharedTask,
    project: ProjectMetadata,
    user: Option<UserData>,
) -> ActivityEvent {
    ActivityEvent {
        seq,
        event_id,
        organization_id,
        event_type,
        created_at,
        payload: SharedTaskActivityPayload { task, project, user },
    }
}

/// Two task indices carrying the same id are the same index.
pub proof fn lemma_unique_task_index(tasks: Seq<SharedTask>, i: int, j: int)
    requires
        task_ids_unique(tasks),
        0 <= i < tasks.len(),
        0 <= j < tasks.len(),
        tasks[i].id == tasks[j].id,
    ensures
        i == j,
{
    if i < j {
        assert(tasks[i].id != tasks[j].id);
    } else if j < i {
        assert(tasks[j].id != tasks[i].id);
    }
}

impl OrgStore {
    /// Replaces the task at `i` with its post-mutation state and appends
    /// the matching activity event, atomically advancing the counter.
    fn commit_replace(
        &mut self,
        i: usize,
        nt: SharedTask,
        event_type: EventType,
        project: ProjectMetadata,
        user: Option<UserData>,
        event_id: u128,
        now: i64,
    ) -> (r: SharedTaskWithUser)
        requires
            old(self).wf(),
            old(self).last_seq < i64::MAX,
            i < old(self).tasks@.len(),
            nt.id == old(self).tasks@[i as int].id,
            nt.organization_id@ == old(self).organization_id@,
            1 <= nt.version <= old(self).last_seq + 1,
        ensures
            final(self).wf(),
            final(self).tasks@ == old(self).tasks@.update(i as int, nt),
            final(self).activity@ == old(self).activity@.push(
                mutation_event(
                    old(self).organization_id,
                    (old(self).last_seq + 1) as i64,
                    event_id,
                    event_type,
                    now,
                    nt,
                    project,
                    user,
                ),
            ),
            final(self).last_seq == old(self).last_seq + 1,
            final(self).organization_id == old(self).organization_id,
            final(self).slug == old(self).slug,
            final(self).users == old(self).users,
            final(self).members == old(self).members,
            final(self).projects == old(self).projects,
            r.task == nt,
            r.user == user,
    {
        let ghost prev = *self;
        let payload_task = nt.dup();
        let result_task = nt.dup();
        let result_user = opt_user_dup(&user);
        let e = ActivityEvent {
            seq: self.last_seq + 1,
            event_id,
            organization_id: self.organization_id.clone(),
            event_type,
            created_at: now,
            payload: SharedTaskActivityPayload { task: payload_task, project, user },
        };
        self.tasks.set(i, nt);
        self.activity.push(e);
        self.last_seq = self.last_seq + 1;
        proof {
            let acts = self.activity@;
            let e_spec = mutation_event(
                prev.organization_id,
                (prev.last_seq + 1) as i64,
                event_id,
                event_type,
                now,
                nt,
                project,
                user,
            );
            assert(e == e_spec);
            assert(acts == prev.activity@.push(e_spec));
            assert forall|k: int| 0 <= k < acts.len() implies (#[trigger] acts[k]).seq == k
                + 1 by {
                if k < prev.activity@.len() {
                    assert(acts[k] == prev.activity@[k]);
                }
            }
            assert forall|k: int| 0 <= k < acts.len() implies (#[trigger] acts[k]).organization_id@
                == self.organization_id@ by {
                if k < prev.activity@.len() {
                    assert(acts[k] == prev.activity@[k]);
                }
            }
            let ts = self.tasks@;
            assert forall|a: int, b: int| 0 <= a < b < ts.len() implies (#[trigger] ts[a]).id
                != (#[trigger] ts[b]).id by {
                assert(prev.tasks@[a].id != prev.tasks@[b].id);
                if a != i as int {
                    assert(ts[a] == prev.tasks@[a]);
                }
                if b != i as int {
                    assert(ts[b] == prev.tasks@[b]);
                }
            }
            assert forall|k: int| 0 <= k < ts.len() implies (#[trigger] ts[k]).organization_id@
                == self.organization_id@ && 1 <= ts[k].version <= self.last_seq by {
                if k != i as int {
                    assert(ts[k] == prev.tasks@[k]);
                }
            }
            assert forall|k: int| 0 <= k < ts.len() implies task_matches_latest(
                acts,
                #[trigger] ts[k],
            ) by {
                if k == i as int {
                    lemma_latest_self_on_append(prev.activity@, e_spec);
                    assert(e_spec.payload.task == nt);
                } else {
                    assert(ts[k] == prev.tasks@[k]);
                    assert(task_matches_latest(prev.activity@, prev.tasks@[k]));
                    assert(prev.tasks@[i as int].id != prev.tasks@[k].id);
                    lemma_latest_preserved_on_append(prev.activity@, e_spec, prev.tasks@[k]);
                }
            }
        }
        SharedTaskWithUser { task: result_task, user: result_user }
    }

    /// Appends a new task row and its creation event, atomically advancing
    /// the counter.
    fn commit_insert(
        &mut self,
        nt: SharedTask,
        event_type: EventType,
        project: ProjectMetadata,
        user: Option<UserData>,
        event_id: u128,
        now: i64,
    ) -> (r: SharedTaskWithUser)
        requires
            old(self).wf(),
            old(self).last_seq < i64::MAX,
            forall|k: int|
                0 <= k < old(self).tasks@.len() ==> (#[trigger] old(self).tasks@[k]).id != nt.id,
            nt.organization_id@ == old(self).organization_id@,
            1 <= nt.version <= old(self).last_seq + 1,
        ensures
            final(self).wf(),
            final(self).tasks@ == old(self).tasks@.push(nt),
            final(self).activity@ == old(self).activity@.push(
                mutation_event(
                    old(self).organization_id,
                    (old(self).last_seq + 1) as i64,
                    event_id,
                    event_type,
                    now,
                    nt,
                    project,
                    user,
                ),
            ),
            final(self).last_seq == old(self).last_seq + 1,
            final(self).organization_id == old(self).organization_id,
            final(self).slug == old(self).slug,
            final(self).users == old(self).users,
            final(self).members == old(self).members,
            final(self).projects == old(self).projects,
            r.task == nt,
            r.user == user,
    {
        let ghost prev = *self;
        let payload_task = nt.dup();
        let result_task = nt.dup();
        let result_user = opt_user_dup(&user);
        let e = ActivityEvent {
            seq: self.last_seq + 1,
            event_id,
            organization_id: self.organization_id.clone(),
            event_type,
            created_at: now,
            payload: SharedTaskActivityPayload { task: payload_task, project, user },
        };
        self.tasks.push(nt);
        self.activity.push(e);
        self.last_seq = self.last_seq + 1;
        proof {
            let acts = self.activity@;
            let e_spec = mutation_event(
                prev.organization_id,
                (prev.last_seq + 1) as i64,
                event_id,
                event_type,
                now,
                nt,
                project,
                user,
            );
            assert(e == e_spec);
            assert(acts == prev.activity@.push(e_spec));
            assert forall|k: int| 0 <= k < acts.len() implies (#[trigger] acts[k]).seq == k
                + 1 by {
                if k < prev.activity@.len() {
                    assert(acts[k] == prev.activity@[k]);
                }
            }
            assert forall|k: int| 0 <= k < acts.len() implies (#[trigger] acts[k]).organization_id@
                == self.organization_id@ by {
                if k < prev.activity@.len() {
                    assert(acts[k] == prev.activity@[k]);
                }
            }
            let ts = self.tasks@;
            assert forall|a: int, b: int| 0 <= a < b < ts.len() implies (#[trigger] ts[a]).id
                != (#[trigger] ts[b]).id by {
                if b < prev.tasks@.len() {
                    assert(prev.tasks@[a].id != prev.tasks@[b].id);
                } else {
                    assert(ts[b] == nt);
                    assert(prev.tasks@[a].id != nt.id);
                }
            }
            assert forall|k: int| 0 <= k < ts.len() implies (#[trigger] ts[k]).organization_id@
                == self.organization_id@ && 1 <= ts[k].version <= self.last_seq by {
                if k < prev.tasks@.len() {
                    assert(ts[k] == prev.tasks@[k]);
                }
            }
            assert forall|k: int| 0 <= k < ts.len() implies task_matches_latest(
                acts,
                #[trigger] ts[k],
            ) by {
                if k == prev.tasks@.len() {
                    lemma_latest_self_on_append(prev.activity@, e_spec);
                    assert(e_spec.payload.task == nt);
                } else {
                    assert(ts[k] == prev.tasks@[k]);
                    assert(task_matches_latest(prev.activity@, prev.tasks@[k]));
                    assert(prev.tasks@[k].id != nt.id);
                    lemma_latest_preserved_on_append(prev.activity@, e_spec, prev.tasks@[k]);
                }
            }
        }
        SharedTaskWithUser { task: result_task, user: result_user }
    }
}

/// Exact executable form of the update row condition.
fn update_row_matches_exec(
    t: &SharedTask,
    task_id: u128,
    version: &Option<i64>,
    acting: &String,
) -> (r: bool)
    ensures
        r == update_row_matches(*t, task_id, *version, acting@),
{
    t.id == task_id && t.deleted_at.is_none() && (match version {
        Some(v) => t.version == *v,
        None => true,
    }) && (match &t.assignee_user_id {
        Some(a) => *a == *acting,
        None => false,
    })
}

impl OrgStore {
    /// Finds the index of the task satisfying the update row condition.
    fn find_update_match(&self, task_id: u128, version: &Option<i64>, acting: &String) -> (r:
        Option<usize>)
        requires
            self.wf(),
        ensures
            match r {
                Some(i) => i < self.tasks@.len() && update_match_at(
                    self.tasks@,
                    i as int,
                    task_id,
                    *version,
                    acting@,
                ),
                None => !has_update_match(self.tasks@, task_id, *version, acting@),
            },
    {
        let n = self.tasks.len();
        let mut k: usize = 0;
        while k < n
            invariant
                self.wf(),
                n == self.tasks@.len(),
                0 <= k <= n,
                forall|i: int|
                    0 <= i < k ==> !update_match_at(self.tasks@, i, task_id, *version, acting@),
            decreases n - k,
        {
            if update_row_matches_exec(&self.tasks[k], task_id, version, acting) {
                return Some(k);
            }
            k += 1;
        }
        None
    }

    /// Applies an update mutation: merges the supplied text and status into
    /// the matching row, bumps its version, and appends a `TaskUpdated`
    /// event in the same step; any error leaves the store unchanged.
    pub fn update(
        &mut self,
        task_id: u128,
        data: UpdateSharedTaskData,
        event_id: u128,
        now: i64,
    ) -> (r: Result<SharedTaskWithUser, SharedTaskError>)
        requires
            old(self).wf(),
            old(self).last_seq < i64::MAX,
        ensures
            final(self).wf(),
            ({
                let tasks0 = old(self).tasks@;
                let acting = data.acting_user_id@;
                let matched = has_update_match(tasks0, task_id, data.version, acting);
                let mi = update_match_index(tasks0, task_id, data.version, acting);
                let nt = updated_task(tasks0[mi], data, now);
                let text_ok = text_size_ok(
                    nt.title@,
                    match nt.description {
                        Some(d) => Some(d@),
                        None => None,
                    },
                );
                let proj_ok = has_project(old(self).projects@, nt.project_id);
                &&& (r is Ok <==> matched && text_ok && proj_ok)
                &&& (r is Err ==> *final(self) == *old(self))
                &&& (!matched ==> (r matches Err(SharedTaskError::Conflict(m))
                    && m@ == "task version mismatch"@))
                &&& (matched && !text_ok ==> r matches Err(SharedTaskError::PayloadTooLarge))
                &&& (matched && text_ok && !proj_ok ==> (r matches Err(
                    SharedTaskError::Conflict(m),
                ) && m@ == "project not found for shared task"@))
                &&& (r matches Ok(ok) ==> {
                    let user = user_lookup(old(self).users@, nt.assignee_user_id);
                    &&& ok.task == nt
                    &&& ok.user == user
                    &&& final(self).tasks@ == tasks0.update(mi, nt)
                    &&& final(self).activity@ == old(self).activity@.push(
                        mutation_event(
                            old(self).organization_id,
                            (old(self).last_seq + 1) as i64,
                            event_id,
                            EventType::TaskUpdated,
                            now,
                            nt,
                            project_with_id(old(self).projects@, nt.project_id).metadata,
                            user,
                        ),
                    )
                    &&& final(self).last_seq == old(self).last_seq + 1
                })
            }),
            final(self).organization_id == old(self).organization_id,
            final(self).users == old(self).users,
            final(self).members == old(self).members,
            final(self).projects == old(self).projects,
            final(self).slug == old(self).slug,
    {
        let ghost tasks0 = self.tasks@;
        let ghost acting = data.acting_user_id@;
        let i = match self.find_update_match(task_id, &data.version, &data.acting_user_id) {
            Some(i) => i,
            None => {
                return Err(
                    SharedTaskError::Conflict(String::from_str("task version mismatch")),
                );
            },
        };
        proof {
            assert(update_match_at(tasks0, i as int, task_id, data.version, acting));
            let w = update_match_index(tasks0, task_id, data.version, acting);
            assert(update_match_at(tasks0, w, task_id, data.version, acting));
            lemma_unique_task_index(tasks0, i as int, w);
        }
        let base = &self.tasks[i];
        let new_title = match &data.title {
            Some(x) => x.clone(),
            None => base.title.clone(),
        };
        let new_description = match &data.description {
            Some(x) => Some(x.clone()),
            None => opt_string_dup(&base.description),
        };
        let new_status = match &data.status {
            Some(x) => *x,
            None => base.status,
        };
        if let Err(e) = ensure_text_size(&new_title, new_description.as_ref()) {
            return Err(e);
        }
        let project = match self.find_project(base.project_id) {
            Some(p) => p,
            None => {
                return Err(
                    SharedTaskError::Conflict(
                        String::from_str("project not found for shared task"),
                    ),
                );
            },
        };
        let nt = SharedTask {
            id: base.id,
            organization_id: base.organization_id.clone(),
            project_id: base.project_id,
            creator_user_id: opt_string_dup(&base.creator_user_id),
            assignee_user_id: opt_string_dup(&base.assignee_user_id),
            deleted_by_user_id: opt_string_dup(&base.deleted_by_user_id),
            title: new_title,
            description: new_description,
            status: new_status,
            version: base.version + 1,
            deleted_at: base.deleted_at,
            shared_at: base.shared_at,
            created_at: base.created_at,
            updated_at: now,
        };
        proof {
            assert(nt == updated_task(tasks0[i as int], data, now));
        }
        let user = self.fetch_user_opt(&nt.assignee_user_id);
        let r = self.commit_replace(
            i,
            nt,
            EventType::TaskUpdated,
            project.metadata,
            user,
            event_id,
            now,
        );
        Ok(r)
    }
}


/// The row condition of the assignment statement: same id, not deleted,
/// version agreeing with the caller's, and the previous assignee agreeing
/// with the caller's when one was supplied.
pub open spec fn assign_row_matches(
    t: SharedTask,
    task_id: u128,
    version: Option<i64>,
    previous: Option<String>,
) -> bool {
    &&& t.id == task_id
    &&& t.deleted_at is None
    &&& version_matches(t, version)
    &&& match previous {
        Some(p) => assignee_is(t, p@),
        None => true,
    }
}

/// Task `i` satisfies the assignment row condition.
pub open spec fn assign_match_at(
    tasks: Seq<SharedTask>,
    i: int,
    task_id: u128,
    version: Option<i64>,
    previous: Option<String>,
) -> bool {
    0 <= i < tasks.len() && assign_row_matches(tasks[i], task_id, version, previous)
}

/// Some task satisfies the assignment row condition.
pub open spec fn has_assign_match(
    tasks: Seq<SharedTask>,
    task_id: u128,
    version: Option<i64>,
    previous: Option<String>,
) -> bool {
    exists|i: int| assign_match_at(tasks, i, task_id, version, previous)
}

/// The index of the task satisfying the assignment row condition.
pub open spec fn assign_match_index(
    tasks: Seq<SharedTask>,
    task_id: u128,
    version: Option<i64>,
    previous: Option<String>,
) -> int {
    choose|i: int| assign_match_at(tasks, i, task_id, version, previous)
}

/// The task row after an accepted assignment: new assignee, version
/// bumped by one, `updated_at` refreshed.
pub open spec fn assigned_task(t: SharedTask, new_assignee: Option<String>, now: i64)
    -> SharedTask {
    SharedTask {
        assignee_user_id: new_assignee,
        version: (t.version + 1) as i64,
        updated_at: now,
        ..t
    }
}

/// The task row after an accepted soft-delete: `deleted_at` and
/// `deleted_by_user_id` set, version bumped by one, `updated_at` refreshed.
pub open spec fn deleted_task(t: SharedTask, acting: String, now: i64) -> SharedTask {
    SharedTask {
        deleted_at: Some(now),
        deleted_by_user_id: Some(acting),
        version: (t.version + 1) as i64,
        updated_at: now,
        ..t
    }
}

/// The task row created by an accepted creation: version 1, status Todo,
/// shared and timestamped now.
pub open spec fn created_task(
    organization_id: String,
    data: CreateSharedTaskData,
    task_id: u128,
    project_id: u128,
    now: i64,
) -> SharedTask {
    SharedTask {
        id: task_id,
        organization_id,
        project_id,
        creator_user_id: Some(data.creator_user_id),
        assignee_user_id: data.assignee_user_id,
        deleted_by_user_id: None,
        title: data.title,
        description: data.description,
        status: TaskStatus::Todo,
        version: 1,
        deleted_at: None,
        shared_at: Some(now),
        created_at: now,
        updated_at: now,
    }
}

/// Exact executable form of the assignment row condition.
fn assign_row_matches_exec(
    t: &SharedTask,
    task_id: u128,
    version: &Option<i64>,
    previous: &Option<String>,
) -> (r: bool)
    ensures
        r == assign_row_matches(*t, task_id, *version, *previous),
{
    t.id == task_id && t.deleted_at.is_none() && (match version {
        Some(v) => t.version == *v,
        None => true,
    }) && (match previous {
        Some(p) => match &t.assignee_user_id {
            Some(a) => *a == *p,
            None => false,
        },
        None => true,
    })
}

impl OrgStore {
    /// Finds the index of the task satisfying the assignment row condition.
    fn find_assign_match(&self, task_id: u128, version: &Option<i64>, previous: &Option<String>)
        -> (r: Option<usize>)
        requires
            self.wf(),
        ensures
            match r {
                Some(i) => i < self.tasks@.len() && assign_match_at(
                    self.tasks@,
                    i as int,
                    task_id,
                    *version,
                    *previous,
                ),
                None => !has_assign_match(self.tasks@, task_id, *version, *previous),
            },
    {
        let n = self.tasks.len();
        let mut k: usize = 0;
        while k < n
            invariant
                self.wf(),
                n == self.tasks@.len(),
                0 <= k <= n,
                forall|i: int|
                    0 <= i < k ==> !assign_match_at(self.tasks@, i, task_id, *version, *previous),
            decreases n - k,
        {
            if assign_row_matches_exec(&self.tasks[k], task_id, version, previous) {
                return Some(k);
            }
            k += 1;
        }
        None
    }

    /// Applies an assignment mutation: transfers the matching row to the
    /// new assignee, bumps its version, and appends a `TaskReassigned`
    /// event in the same step; any error leaves the store unchanged.
    pub fn assign_task(
        &mut self,
        task_id: u128,
        data: crate::task::AssignTaskData,
        event_id: u128,
        now: i64,
    ) -> (r: Result<SharedTaskWithUser, SharedTaskError>)
        requires
            old(self).wf(),
            old(self).last_seq < i64::MAX,
        ensures
            final(self).wf(),
            ({
                let tasks0 = old(self).tasks@;
                let matched = has_assign_match(
                    tasks0,
                    task_id,
                    data.version,
                    data.previous_assignee_user_id,
                );
                let mi = assign_match_index(
                    tasks0,
                    task_id,
                    data.version,
                    data.previous_assignee_user_id,
                );
                let nt = assigned_task(tasks0[mi], data.new_assignee_user_id, now);
                let proj_ok = has_project(old(self).projects@, nt.project_id);
                &&& (r is Ok <==> matched && proj_ok)
                &&& (r is Err ==> *final(self) == *old(self))
                &&& (!matched ==> (r matches Err(SharedTaskError::Conflict(m))
                    && m@ == "task version or previous assignee mismatch"@))
                &&& (matched && !proj_ok ==> (r matches Err(SharedTaskError::Conflict(m))
                    && m@ == "project not found for shared task"@))
                &&& (r matches Ok(ok) ==> {
                    let user = user_lookup(old(self).users@, data.new_assignee_user_id);
                    &&& ok.task == nt
                    &&& ok.user == user
                    &&& final(self).tasks@ == tasks0.update(mi, nt)
                    &&& final(self).activity@ == old(self).activity@.push(
                        mutation_event(
                            old(self).organization_id,
                            (old(self).last_seq + 1) as i64,
                            event_id,
                            EventType::TaskReassigned,
                            now,
                            nt,
                            project_with_id(old(self).projects@, nt.project_id).metadata,
                            user,
                        ),
                    )
                    &&& final(self).last_seq == old(self).last_seq + 1
                })
            }),
            final(self).organization_id == old(self).organization_id,
            final(self).users == old(self).users,
            final(self).members == old(self).members,
            final(self).projects == old(self).projects,
            final(self).slug == old(self).slug,
    {
        let ghost tasks0 = self.tasks@;
        let i = match self.find_assign_match(
            task_id,
            &data.version,
            &data.previous_assignee_user_id,
        ) {
            Some(i) => i,
            None => {
                return Err(
                    SharedTaskError::Conflict(
                        String::from_str("task version or previous assignee mismatch"),
                    ),
                );
            },
        };
        proof {
            assert(assign_match_at(
                tasks0,
                i as int,
                task_id,
                data.version,
                data.previous_assignee_user_id,
            ));
            let w = assign_match_index(
                tasks0,
                task_id,
                data.version,
                data.previous_assignee_user_id,
            );
            assert(assign_match_at(tasks0, w, task_id, data.version, data.previous_assignee_user_id));
            lemma_unique_task_index(tasks0, i as int, w);
        }
        let base = &self.tasks[i];
        let project = match self.find_project(base.project_id) {
            Some(p) => p,
            None => {
                return Err(
                    SharedTaskError::Conflict(
                        String::from_str("project not found for shared task"),
                    ),
                );
            },
        };
        let nt = SharedTask {
            id: base.id,
            organization_id: base.organization_id.clone(),
            project_id: base.project_id,
            creator_user_id: opt_string_dup(&base.creator_user_id),
            assignee_user_id: opt_string_dup(&data.new_assignee_user_id),
            deleted_by_user_id: opt_string_dup(&base.deleted_by_user_id),
            title: base.title.clone(),
            description: opt_string_dup(&base.description),
            status: base.status,
            version: base.version + 1,
            deleted_at: base.deleted_at,
            shared_at: base.shared_at,
            created_at: base.created_at,
            updated_at: now,
        };
        proof {
            assert(nt == assigned_task(tasks0[i as int], data.new_assignee_user_id, now));
        }
        let user = self.fetch_user_opt(&data.new_assignee_user_id);
        let r = self.commit_replace(
            i,
            nt,
            EventType::TaskReassigned,
            project.metadata,
            user,
            event_id,
            now,
        );
        Ok(r)
    }

    /// Applies a soft-delete mutation: marks the matching row deleted,
    /// bumps its version, and appends a `TaskDeleted` event in the same
    /// step; any error leaves the store unchanged.
    pub fn delete_task(
        &mut self,
        task_id: u128,
        data: crate::task::DeleteTaskData,
        event_id: u128,
        now: i64,
    ) -> (r: Result<SharedTaskWithUser, SharedTaskError>)
        requires
            old(self).wf(),
            old(self).last_seq < i64::MAX,
        ensures
            final(self).wf(),
            ({
                let tasks0 = old(self).tasks@;
                let acting = data.acting_user_id@;
                let matched = has_update_match(tasks0, task_id, data.version, acting);
                let mi = update_match_index(tasks0, task_id, data.version, acting);
                let nt = deleted_task(tasks0[mi], data.acting_user_id, now);
                let proj_ok = has_project(old(self).projects@, nt.project_id);
                &&& (r is Ok <==> matched && proj_ok)
                &&& (r is Err ==> *final(self) == *old(self))
                &&& (!matched ==> (r matches Err(SharedTaskError::Conflict(m))
                    && m@ == "task version mismatch or user not authorized"@))
                &&& (matched && !proj_ok ==> (r matches Err(SharedTaskError::Conflict(m))
                    && m@ == "project not found for shared task"@))
                &&& (r matches Ok(ok) ==> {
                    &&& ok.task == nt
                    &&& ok.user is None
                    &&& final(self).tasks@ == tasks0.update(mi, nt)
                    &&& final(self).activity@ == old(self).activity@.push(
                        mutation_event(
                            old(self).organization_id,
                            (old(self).last_seq + 1) as i64,
                            event_id,
                            EventType::TaskDeleted,
                            now,
                            nt,
                            project_with_id(old(self).projects@, nt.project_id).metadata,
                            None,
                        ),
                    )
                    &&& final(self).last_seq == old(self).last_seq + 1
                })
            }),
            final(self).organization_id == old(self).organization_id,
            final(self).users == old(self).users,
            final(self).members == old(self).members,
            final(self).projects == old(self).projects,
            final(self).slug == old(self).slug,
    {
        let ghost tasks0 = self.tasks@;
        let ghost acting = data.acting_user_id@;
        let i = match self.find_update_match(task_id, &data.version, &data.acting_user_id) {
            Some(i) => i,
            None => {
                return Err(
                    SharedTaskError::Conflict(
                        String::from_str("task version mismatch or user not authorized"),
                    ),
                );
            },
        };
        proof {
            assert(update_match_at(tasks0, i as int, task_id, data.version, acting));
            let w = update_match_index(tasks0, task_id, data.version, acting);
            assert(update_match_at(tasks0, w, task_id, data.version, acting));
            lemma_unique_task_index(tasks0, i as int, w);
        }
        let base = &self.tasks[i];
        let project = match self.find_project(base.project_id) {
            Some(p) => p,
            None => {
                return Err(
                    SharedTaskError::Conflict(
                        String::from_str("project not found for shared task"),
                    ),
                );
            },
        };
        let nt = SharedTask {
            id: base.id,
            organization_id: base.organization_id.clone(),
            project_id: base.project_id,
            creator_user_id: opt_string_dup(&base.creator_user_id),
            assignee_user_id: opt_string_dup(&base.assignee_user_id),
            deleted_by_user_id: Some(data.acting_user_id.clone()),
            title: base.title.clone(),
            description: opt_string_dup(&base.description),
            status: base.status,
            version: base.version + 1,
            deleted_at: Some(now),
            shared_at: base.shared_at,
            created_at: base.created_at,
            updated_at: now,
        };
        proof {
            assert(nt == deleted_task(tasks0[i as int], data.acting_user_id, now));
        }
        let r = self.commit_replace(
            i,
            nt,
            EventType::TaskDeleted,
            project.metadata,
            None,
            event_id,
            now,
        );
        Ok(r)
    }

    /// Applies a creation mutation: finds or inserts the project for the
    /// given repository, inserts the new task row with version 1, and
    /// appends a `TaskCreated` event in the same step; an oversized text
    /// payload is rejected with the store unchanged.
    pub fn create(
        &mut self,
        data: CreateSharedTaskData,
        task_id: u128,
        new_project_id: u128,
        event_id: u128,
        now: i64,
    ) -> (r: Result<SharedTaskWithUser, SharedTaskError>)
        requires
            old(self).wf(),
            old(self).last_seq < i64::MAX,
            forall|k: int|
                0 <= k < old(self).tasks@.len() ==> (#[trigger] old(self).tasks@[k]).id != task_id,
            !has_project_repo(old(self).projects@, data.project.github_repository_id)
                ==> !has_project(old(self).projects@, new_project_id),
        ensures
            final(self).wf(),
            ({
                let text_ok = text_size_ok(
                    data.title@,
                    match data.description {
                        Some(d) => Some(d@),
                        None => None,
                    },
                );
                let existing = has_project_repo(
                    old(self).projects@,
                    data.project.github_repository_id,
                );
                let proj = if existing {
                    project_with_repo(old(self).projects@, data.project.github_repository_id)
                } else {
                    Project {
                        id: new_project_id,
                        organization_id: old(self).organization_id,
                        metadata: data.project,
                    }
                };
                let nt = created_task(old(self).organization_id, data, task_id, proj.id, now);
                &&& (r is Ok <==> text_ok)
                &&& (r is Err ==> *final(self) == *old(self) && r->Err_0 is PayloadTooLarge)
                &&& (r matches Ok(ok) ==> {
                    let user = user_lookup(old(self).users@, data.assignee_user_id);
                    &&& ok.task == nt
                    &&& ok.user == user
                    &&& final(self).projects@ == if existing {
                        old(self).projects@
                    } else {
                        old(self).projects@.push(proj)
                    }
                    &&& final(self).tasks@ == old(self).tasks@.push(nt)
                    &&& final(self).activity@ == old(self).activity@.push(
                        mutation_event(
                            old(self).organization_id,
                            (old(self).last_seq + 1) as i64,
                            event_id,
                            EventType::TaskCreated,
                            now,
                            nt,
                            proj.metadata,
                            user,
                        ),
                    )
                    &&& final(self).last_seq == old(self).last_seq + 1
                })
            }),
            final(self).organization_id == old(self).organization_id,
            final(self).users == old(self).users,
            final(self).members == old(self).members,
            final(self).slug == old(self).slug,
    {
        if let Err(e) = ensure_text_size(&data.title, data.description.as_ref()) {
            return Err(e);
        }
        let ghost prev = *self;
        let project = match self.find_project_by_repo(data.project.github_repository_id) {
            Some(p) => p,
            None => {
                let p = Project {
                    id: new_project_id,
                    organization_id: self.organization_id.clone(),
                    metadata: data.project.dup(),
                };
                let copy = p.dup();
                self.projects.push(p);
                proof {
                    let ps = self.projects@;
                    assert forall|a: int, b: int| 0 <= a < b < ps.len() implies (
                    #[trigger] ps[a]).id != (#[trigger] ps[b]).id by {
                        if b < prev.projects@.len() {
                            assert(ps[a] == prev.projects@[a] && ps[b] == prev.projects@[b]);
                        } else {
                            assert(ps[a] == prev.projects@[a]);
                            assert(!project_at(prev.projects@, a, new_project_id));
                        }
                    }
                    assert forall|a: int, b: int| 0 <= a < b < ps.len() implies (
                    #[trigger] ps[a]).metadata.github_repository_id != (
                    #[trigger] ps[b]).metadata.github_repository_id by {
                        if b < prev.projects@.len() {
                            assert(ps[a] == prev.projects@[a] && ps[b] == prev.projects@[b]);
                        } else {
                            assert(ps[a] == prev.projects@[a]);
                            assert(!project_repo_at(
                                prev.projects@,
                                a,
                                data.project.github_repository_id,
                            ));
                        }
                    }
                }
                copy
            },
        };
        let nt = SharedTask {
            id: task_id,
            organization_id: self.organization_id.clone(),
            project_id: project.id,
            creator_user_id: Some(data.creator_user_id.clone()),
            assignee_user_id: opt_string_dup(&data.assignee_user_id),
            deleted_by_user_id: None,
            title: data.title.clone(),
            description: opt_string_dup(&data.description),
            status: TaskStatus::Todo,
            version: 1,
            deleted_at: None,
            shared_at: Some(now),
            created_at: now,
            updated_at: now,
        };
        proof {
            assert(nt == created_task(prev.organization_id, data, task_id, project.id, now));
        }
        let user = self.fetch_user_opt(&data.assignee_user_id);
        proof {
            assert(self.users@ == prev.users@);
        }
        let r = self.commit_insert(
            nt,
            EventType::TaskCreated,
            project.metadata,
            user,
            event_id,
            now,
        );
        Ok(r)
    }
}


/// The snapshot payloads of the non-deleted tasks whose project row
/// exists, in store order.
pub open spec fn bulk_payloads(
    tasks: Seq<SharedTask>,
    projects: Seq<Project>,
    users: Seq<User>,
) -> Seq<SharedTaskActivityPayload>
    decreases tasks.len(),
{
    if tasks.len() == 0 {
        Seq::empty()
    } else {
        let rest = bulk_payloads(tasks.drop_last(), projects, users);
        let t = tasks.last();
        if t.deleted_at is None && has_project(projects, t.project_id) {
            rest.push(
                SharedTaskActivityPayload {
                    task: t,
                    project: project_with_id(projects, t.project_id).metadata,
                    user: user_lookup(users, t.assignee_user_id),
                },
            )
        } else {
            rest
        }
    }
}

/// The ids of the soft-deleted tasks whose project row exists, in store
/// order.
pub open spec fn bulk_deleted_ids(tasks: Seq<SharedTask>, projects: Seq<Project>) -> Seq<u128>
    decreases tasks.len(),
{
    if tasks.len() == 0 {
        Seq::empty()
    } else {
        let rest = bulk_deleted_ids(tasks.drop_last(), projects);
        let t = tasks.last();
        if t.deleted_at is Some && has_project(projects, t.project_id) {
            rest.push(t.id)
        } else {
            rest
        }
    }
}

/// Every snapshot payload's task is one of the store's task rows.
pub proof fn lemma_bulk_payloads_from_tasks(
    tasks: Seq<SharedTask>,
    projects: Seq<Project>,
    users: Seq<User>,
)
    ensures
        forall|k: int|
            0 <= k < bulk_payloads(tasks, projects, users).len() ==> exists|i: int|
                0 <= i < tasks.len() && tasks[i] == (#[trigger] bulk_payloads(
                    tasks,
                    projects,
                    users,
                )[k]).task,
    decreases tasks.len(),
{
    if tasks.len() > 0 {
        let rest_tasks = tasks.drop_last();
        lemma_bulk_payloads_from_tasks(rest_tasks, projects, users);
        let ps = bulk_payloads(tasks, projects, users);
        let rest = bulk_payloads(rest_tasks, projects, users);
        assert forall|k: int| 0 <= k < ps.len() implies exists|i: int|
            0 <= i < tasks.len() && tasks[i] == (#[trigger] ps[k]).task by {
            if k < rest.len() {
                assert(ps[k] == rest[k]);
                let i = choose|i: int| 0 <= i < rest_tasks.len() && rest_tasks[i] == rest[k].task;
                assert(tasks[i] == ps[k].task);
            } else {
                let i = tasks.len() - 1;
                assert(tasks[i] == ps[k].task);
            }
        }
    }
}

/// Consistency of the bulk snapshot: every task it returns is exactly the
/// state carried by the latest activity event about that task's id, and
/// every event's `seq` is at most the snapshot's `latest_seq`. In
/// particular no returned task is older than what the event log at
/// `latest_seq` implies.
pub proof fn lemma_bulk_snapshot_consistent(s: OrgStore)
    requires
        s.wf(),
    ensures
        forall|k: int|
            0 <= k < bulk_payloads(s.tasks@, s.projects@, s.users@).len() ==> task_matches_latest(
                s.activity@,
                (#[trigger] bulk_payloads(s.tasks@, s.projects@, s.users@)[k]).task,
            ),
        forall|i: int|
            0 <= i < s.activity@.len() ==> (#[trigger] s.activity@[i]).seq <= s.last_seq,
{
    lemma_bulk_payloads_from_tasks(s.tasks@, s.projects@, s.users@);
    let ps = bulk_payloads(s.tasks@, s.projects@, s.users@);
    assert forall|k: int| 0 <= k < ps.len() implies task_matches_latest(
        s.activity@,
        (#[trigger] ps[k]).task,
    ) by {
        let i = choose|i: int| 0 <= i < s.tasks@.len() && s.tasks@[i] == ps[k].task;
        assert(task_matches_latest(s.activity@, s.tasks@[i]));
    }
}


/// Snapshot rows ordered most recently updated first.
pub open spec fn sorted_by_updated_desc(ps: Seq<SharedTaskActivityPayload>) -> bool {
    forall|i: int, j: int|
        0 <= i < j < ps.len() ==> (#[trigger] ps[i]).task.updated_at
            >= (#[trigger] ps[j]).task.updated_at
}

/// Orders snapshot rows by `updated_at`, newest first; rows updated at
/// the same instant keep no particular order, as the database leaves
/// them unspecified.
fn sort_payloads_by_updated_desc(v: Vec<SharedTaskActivityPayload>) -> (r: Vec<
    SharedTaskActivityPayload,
>)
    ensures
        r@.to_multiset() == v@.to_multiset(),
        sorted_by_updated_desc(r@),
{
    let ghost orig = v@;
    let mut rest = v;
    let mut out: Vec<SharedTaskActivityPayload> = Vec::new();
    proof {
        broadcast use vstd::seq_lib::group_to_multiset_ensures;

        assert(out@.to_multiset() =~= vstd::multiset::Multiset::<
            SharedTaskActivityPayload,
        >::empty());
        assert(out@.to_multiset().add(rest@.to_multiset()) =~= orig.to_multiset());
    }
    while rest.len() > 0
        invariant
            out@.to_multiset().add(rest@.to_multiset()) =~= orig.to_multiset(),
            sorted_by_updated_desc(out@),
            forall|a: int, b: int|
                0 <= a < out@.len() && 0 <= b < rest@.len() ==> (#[trigger] out@[a]).task.updated_at
                    >= (#[trigger] rest@[b]).task.updated_at,
        decreases rest@.len(),
    {
        let n = rest.len();
        let mut best: usize = 0;
        let mut k: usize = 1;
        while k < n
            invariant
                n == rest@.len(),
                0 < n,
                best < k <= n,
                forall|j: int|
                    0 <= j < k ==> (#[trigger] rest@[j]).task.updated_at
                        <= rest@[best as int].task.updated_at,
            decreases n - k,
        {
            if rest[k].task.updated_at > rest[best].task.updated_at {
                best = k;
            }
            k += 1;
        }
        let ghost rest0 = rest@;
        let ghost out0 = out@;
        let picked = rest.remove(best);
        out.push(picked);
        proof {
            broadcast use vstd::seq_lib::group_to_multiset_ensures;

            assert(rest@ =~= rest0.remove(best as int));
            assert(rest@.to_multiset() =~= rest0.to_multiset().remove(picked));
            assert(out@.to_multiset() =~= out0.to_multiset().insert(picked));
            assert(rest0.to_multiset().contains(picked));
            assert(out@.to_multiset().add(rest@.to_multiset()) =~= orig.to_multiset());
            assert forall|a: int, b: int|
                0 <= a < out@.len() && 0 <= b < rest@.len() implies (
            #[trigger] out@[a]).task.updated_at >= (#[trigger] rest@[b]).task.updated_at by {
                let b0 = if b < best as int {
                    b
                } else {
                    b + 1
                };
                assert(rest@[b] == rest0[b0]);
                if a < out0.len() {
                    assert(out@[a] == out0[a]);
                } else {
                    assert(out@[a] == picked);
                    assert(rest0[b0].task.updated_at <= rest0[best as int].task.updated_at);
                }
            }
            assert forall|i: int, j: int| 0 <= i < j < out@.len() implies (
            #[trigger] out@[i]).task.updated_at >= (#[trigger] out@[j]).task.updated_at by {
                if j < out0.len() {
                    assert(out@[i] == out0[i] && out@[j] == out0[j]);
                } else {
                    assert(out@[j] == picked);
                    assert(out@[i] == out0[i]);
                    assert(rest0[best as int] == picked);
                }
            }
        }
    }
    proof {
        broadcast use vstd::seq_lib::group_to_multiset_ensures;

        assert(rest@ =~= Seq::<SharedTaskActivityPayload>::empty());
        assert(rest@.to_multiset() =~= vstd::multiset::Multiset::empty());
        assert(out@.to_multiset() =~= orig.to_multiset());
    }
    out
}

impl OrgStore {
    /// Takes a consistent snapshot: all non-deleted tasks with their
    /// payload data, most recently updated first, the ids of all
    /// soft-deleted tasks, and the highest `seq` so far (unset when no
    /// event exists). Everything comes from one store state, so the
    /// tasks and the sequence agree.
    pub fn bulk_fetch(&self) -> (r: BulkFetchResult)
        requires
            self.wf(),
        ensures
            r.tasks@.to_multiset() == bulk_payloads(
                self.tasks@,
                self.projects@,
                self.users@,
            ).to_multiset(),
            forall|k: int|
                0 <= k < r.tasks@.len() ==> bulk_payloads(
                    self.tasks@,
                    self.projects@,
                    self.users@,
                ).contains(#[trigger] r.tasks@[k]),
            sorted_by_updated_desc(r.tasks@),
            r.deleted_task_ids@ == bulk_deleted_ids(self.tasks@, self.projects@),
            r.latest_seq == if self.last_seq == 0 {
                Option::<i64>::None
            } else {
                Some(self.last_seq)
            },
    {
        let n = self.tasks.len();
        let mut out_tasks: Vec<SharedTaskActivityPayload> = Vec::new();
        let mut out_deleted: Vec<u128> = Vec::new();
        let mut k: usize = 0;
        while k < n
            invariant
                self.wf(),
                n == self.tasks@.len(),
                0 <= k <= n,
                out_tasks@ == bulk_payloads(
                    self.tasks@.subrange(0, k as int),
                    self.projects@,
                    self.users@,
                ),
                out_deleted@ == bulk_deleted_ids(
                    self.tasks@.subrange(0, k as int),
                    self.projects@,
                ),
            decreases n - k,
        {
            let ghost sub0 = self.tasks@.subrange(0, k as int);
            let ghost sub1 = self.tasks@.subrange(0, k as int + 1);
            proof {
                assert(sub1.drop_last() =~= sub0);
                assert(sub1.last() == self.tasks@[k as int]);
            }
            let t = &self.tasks[k];
            if t.deleted_at.is_none() {
                if let Some(p) = self.find_project(t.project_id) {
                    let user = self.fetch_user_opt(&t.assignee_user_id);
                    out_tasks.push(
                        SharedTaskActivityPayload { task: t.dup(), project: p.metadata, user },
                    );
                }
            } else {
                if self.find_project(t.project_id).is_some() {
                    out_deleted.push(t.id);
                }
            }
            k += 1;
        }
        proof {
            assert(self.tasks@.subrange(0, n as int) =~= self.tasks@);
        }
        let sorted_tasks = sort_payloads_by_updated_desc(out_tasks);
        proof {
            broadcast use vstd::seq_lib::group_to_multiset_ensures;

            let all = bulk_payloads(self.tasks@, self.projects@, self.users@);
            assert forall|k: int| 0 <= k < sorted_tasks@.len() implies all.contains(
                #[trigger] sorted_tasks@[k],
            ) by {
                assert(sorted_tasks@.contains(sorted_tasks@[k]));
                assert(sorted_tasks@.to_multiset().count(sorted_tasks@[k]) > 0);
                assert(all.to_multiset().count(sorted_tasks@[k]) > 0);
            }
        }
        let latest_seq = if self.last_seq == 0 {
            None
        } else {
            Some(self.last_seq)
        };
        BulkFetchResult { tasks: sorted_tasks, deleted_task_ids: out_deleted, latest_seq }
    }
}


/// The user rows after an upsert from the identity provider: the row
/// with the same id has its profile fields replaced and `updated_at`
/// refreshed; a new id is appended with both timestamps set.
pub open spec fn upsert_user_rows(users: Seq<User>, u: ClerkUser, now: i64) -> Seq<User> {
    if has_user(users, u.id@) {
        let i = choose|i: int| user_at(users, i, u.id@);
        users.update(
            i,
            User {
                id: users[i].id,
                email: u.email,
                first_name: u.first_name,
                last_name: u.last_name,
                username: u.username,
                created_at: users[i].created_at,
                updated_at: now,
            },
        )
    } else {
        users.push(
            User {
                id: u.id,
                email: u.email,
                first_name: u.first_name,
                last_name: u.last_name,
                username: u.username,
                created_at: now,
                updated_at: now,
            },
        )
    }
}

/// Some member entry names the user.
pub open spec fn has_member(members: Seq<String>, id: Seq<char>) -> bool {
    exists|i: int| 0 <= i < members.len() && (#[trigger] members[i])@ == id
}

impl OrgStore {
    /// Upserts the organization row: a supplied slug replaces the stored
    /// one; without one the organization id doubles as the slug.
    pub fn ensure_organization(&mut self, slug: Option<&String>)
        requires
            old(self).wf(),
        ensures
            final(self).wf(),
            final(self).slug@ == match slug {
                Some(s) => s@,
                None => old(self).organization_id@,
            },
            final(self).organization_id == old(self).organization_id,
            final(self).users == old(self).users,
            final(self).members == old(self).members,
            final(self).projects == old(self).projects,
            final(self).tasks == old(self).tasks,
            final(self).activity == old(self).activity,
            final(self).last_seq == old(self).last_seq,
    {
        self.slug = match slug {
            Some(s) => s.clone(),
            None => self.organization_id.clone(),
        };
    }

    /// Upserts a user row from the identity provider's record.
    pub fn upsert_user(&mut self, user: &ClerkUser, now: i64) -> (r: User)
        requires
            old(self).wf(),
        ensures
            final(self).wf(),
            final(self).users@ == upsert_user_rows(old(self).users@, *user, now),
            r.id@ == user.id@,
            r.email == user.email,
            r.first_name == user.first_name,
            r.last_name == user.last_name,
            r.username == user.username,
            final(self).organization_id == old(self).organization_id,
            final(self).slug == old(self).slug,
            final(self).members == old(self).members,
            final(self).projects == old(self).projects,
            final(self).tasks == old(self).tasks,
            final(self).activity == old(self).activity,
            final(self).last_seq == old(self).last_seq,
    {
        let ghost users0 = self.users@;
        let n = self.users.len();
        let mut k: usize = 0;
        while k < n
            invariant
                self.wf(),
                *self == *old(self),
                users0 == self.users@,
                n == self.users@.len(),
                0 <= k <= n,
                forall|i: int| 0 <= i < k ==> !user_at(self.users@, i, user.id@),
            decreases n - k,
        {
            if self.users[k].id == user.id {
                proof {
                    assert(user_at(users0, k as int, user.id@));
                    let w = choose|i: int| user_at(users0, i, user.id@);
                    assert(user_at(users0, w, user.id@));
                    if w < k as int {
                        assert(!user_at(users0, w, user.id@));
                    } else if w > k as int {
                        assert(users0[k as int].id@ != users0[w].id@);
                    }
                }
                let row = User {
                    id: self.users[k].id.clone(),
                    email: user.email.clone(),
                    first_name: opt_string_dup(&user.first_name),
                    last_name: opt_string_dup(&user.last_name),
                    username: opt_string_dup(&user.username),
                    created_at: self.users[k].created_at,
                    updated_at: now,
                };
                let result = row.dup();
                self.users.set(k, row);
                proof {
                    let us = self.users@;
                    assert forall|a: int, b: int| 0 <= a < b < us.len() implies (
                    #[trigger] us[a]).id@ != (#[trigger] us[b]).id@ by {
                        assert(users0[a].id@ != users0[b].id@);
                        if a != k as int {
                            assert(us[a] == users0[a]);
                        }
                        if b != k as int {
                            assert(us[b] == users0[b]);
                        }
                    }
                }
                return result;
            }
            k += 1;
        }
        let row = User {
            id: user.id.clone(),
            email: user.email.clone(),
            first_name: opt_string_dup(&user.first_name),
            last_name: opt_string_dup(&user.last_name),
            username: opt_string_dup(&user.username),
            created_at: now,
            updated_at: now,
        };
        let result = row.dup();
        self.users.push(row);
        proof {
            let us = self.users@;
            assert forall|a: int, b: int| 0 <= a < b < us.len() implies (#[trigger] us[a]).id@
                != (#[trigger] us[b]).id@ by {
                if b < users0.len() {
                    assert(users0[a].id@ != users0[b].id@);
                } else {
                    assert(us[a] == users0[a]);
                    assert(!user_at(users0, a, us[b].id@));
                }
            }
        }
        result
    }

    /// Records the user as a member of this organization, once.
    pub fn ensure_member_metadata(&mut self, user_id: &String)
        requires
            old(self).wf(),
        ensures
            final(self).wf(),
            has_member(old(self).members@, user_id@) ==> final(self).members
                == old(self).members,
            !has_member(old(self).members@, user_id@) ==> final(self).members@ == old(
                self,
            ).members@.push(*user_id),
            final(self).organization_id == old(self).organization_id,
            final(self).slug == old(self).slug,
            final(self).users == old(self).users,
            final(self).projects == old(self).projects,
            final(self).tasks == old(self).tasks,
            final(self).activity == old(self).activity,
            final(self).last_seq == old(self).last_seq,
    {
        let n = self.members.len();
        let mut k: usize = 0;
        while k < n
            invariant
                self.wf(),
                *self == *old(self),
                n == self.members@.len(),
                0 <= k <= n,
                forall|i: int| 0 <= i < k ==> (#[trigger] self.members@[i])@ != user_id@,
            decreases n - k,
        {
            if self.members[k] == *user_id {
                return ;
            }
            k += 1;
        }
        self.members.push(user_id.clone());
    }

    /// Admits a user into the organization's rows: refused with the
    /// provider's not-found error when none of the given memberships
    /// names this organization; otherwise the user row is upserted and
    /// the membership recorded.
    pub fn ensure_user(
        &mut self,
        user: &ClerkUser,
        memberships: &Vec<ClerkOrganizationMembership>,
        now: i64,
    ) -> (r: Result<User, IdentityError>)
        requires
            old(self).wf(),
        ensures
            final(self).wf(),
            r is Ok <==> crate::auth::is_member_of(memberships@, old(self).organization_id@),
            r is Err ==> *final(self) == *old(self) && (r matches Err(IdentityError::Clerk(e))
                && e is NotFound),
            r matches Ok(u) ==> {
                &&& u.id@ == user.id@
                &&& u.email == user.email
                &&& final(self).users@ == upsert_user_rows(old(self).users@, *user, now)
                &&& has_member(final(self).members@, user.id@)
            },
            final(self).organization_id == old(self).organization_id,
            final(self).slug == old(self).slug,
            final(self).tasks == old(self).tasks,
            final(self).activity == old(self).activity,
            final(self).projects == old(self).projects,
            final(self).last_seq == old(self).last_seq,
    {
        if !check_membership(memberships, &self.organization_id) {
            return Err(
                IdentityError::Clerk(
                    ClerkServiceError::NotFound(
                        String::from_str("user ").concat(user.id.as_str()).concat(
                            " is not a member of organization ",
                        ).concat(self.organization_id.as_str()),
                    ),
                ),
            );
        }
        let record = self.upsert_user(user, now);
        let record_id = record.id.clone();
        let ghost members_mid = self.members@;
        self.ensure_member_metadata(&record_id);
        proof {
            if has_member(members_mid, record_id@) {
                assert(has_member(self.members@, user.id@));
            } else {
                assert(self.members@ == members_mid.push(record_id));
                assert((self.members@[members_mid.len() as int])@ == user.id@);
                assert(has_member(self.members@, user.id@));
            }
        }
        Ok(record)
    }
}


/// Sequence gaplessness: for any organization, reading the activity log
/// in `seq` order yields exactly 1, 2, …, K with `K == last_seq` — no
/// gaps, no duplicates, and every event belongs to the organization.
pub proof fn lemma_seq_gapless(s: OrgStore)
    requires
        s.wf(),
    ensures
        s.last_seq == s.activity@.len(),
        forall|i: int| 0 <= i < s.activity@.len() ==> (#[trigger] s.activity@[i]).seq == i + 1,
        forall|i: int|
            0 <= i < s.activity@.len() ==> (#[trigger] s.activity@[i]).organization_id@
                == s.organization_id@,
{
}

/// Transactional coupling: every task row is exactly the payload of the
/// latest activity event about its id — in particular that event carries
/// the task's current version. The converse direction is each mutation's
/// own contract: an accepted mutation appends exactly one event, whose
/// payload is the post-mutation row, and a rejected one appends none.
pub proof fn lemma_transactional_coupling(s: OrgStore)
    requires
        s.wf(),
    ensures
        forall|k: int|
            0 <= k < s.tasks@.len() ==> task_matches_latest(s.activity@, #[trigger] s.tasks@[k]),
{
}

/// Version monotonicity: each kind of accepted mutation bumps the
/// affected task's version by exactly one (and a rejected mutation, by
/// the mutations' contracts, changes nothing), so a task's versions over
/// time form a strictly increasing sequence stepping by one from 1.
pub proof fn lemma_version_increments(
    t: SharedTask,
    data: UpdateSharedTaskData,
    new_assignee: Option<String>,
    acting: String,
    now: i64,
)
    requires
        t.version < i64::MAX,
    ensures
        updated_task(t, data, now).version == t.version + 1,
        assigned_task(t, new_assignee, now).version == t.version + 1,
        deleted_task(t, acting, now).version == t.version + 1,
        updated_task(t, data, now).id == t.id,
        assigned_task(t, new_assignee, now).id == t.id,
        deleted_task(t, acting, now).id == t.id,
{
}

} // verus!
