//! The task endpoints' logic: request and response bodies, and the
//! per-route precondition checks — not-found, assignee-only, text size —
//! in front of the store mutations.

use vstd::prelude::*;

use crate::auth::{ClerkOrganizationMembership, ClerkUser, IdentityError};
use crate::event::{EventType, SharedTaskActivityPayload};
use crate::identity::UserData;
use crate::project::ProjectMetadata;
use crate::store::{
    assign_match_at, assign_match_index, assignee_is, created_task, has_assign_match,
    has_live_task, has_project, has_project_repo, has_update_match, live_task_at, mutation_event,
    project_with_id, project_with_repo, update_match_at, update_match_index, updated_task,
    upsert_user_rows, user_lookup, version_matches, OrgStore,
};
use crate::task::{
    ensure_text_size, text_size_ok, DeleteTaskData, SharedTask, SharedTaskError,
    SharedTaskWithUser, TaskStatus, UpdateSharedTaskData,
};

verus! {

/// Body of the task-creation request.
pub struct CreateSharedTaskRequest {
    pub project: ProjectMetadata,
    pub title: String,
    pub description: Option<String>,
    pub assignee_user_id: Option<String>,
}

/// Body of the task-update request.
pub struct UpdateSharedTaskRequest {
    pub title: Option<String>,
    pub description: Option<String>,
    pub status: Option<TaskStatus>,
    pub version: Option<i64>,
}

/// Body of the assignment request.
pub struct AssignSharedTaskRequest {
    pub new_assignee_user_id: Option<String>,
    pub version: Option<i64>,
}

/// Body of the deletion request.
pub struct DeleteSharedTaskRequest {
    pub version: Option<i64>,
}

/// Body of a successful task mutation's response.
pub struct SharedTaskResponse {
    pub task: SharedTask,
    pub user: Option<UserData>,
}

impl From<SharedTaskWithUser> for SharedTaskResponse {
    fn from(v: SharedTaskWithUser) -> (r: Self) {
        SharedTaskResponse { task: v.task, user: v.user }
    }
}

impl vstd::std_specs::convert::FromSpecImpl<SharedTaskWithUser> for SharedTaskResponse {
    open spec fn obeys_from_spec() -> bool {
        true
    }

    open spec fn from_spec(v: SharedTaskWithUser) -> Self {
        SharedTaskResponse { task: v.task, user: v.user }
    }
}

/// Body of the bulk snapshot response.
pub struct BulkSharedTasksResponse {
    pub tasks: Vec<SharedTaskActivityPayload>,
    pub deleted_task_ids: Vec<u128>,
    pub latest_seq: Option<i64>,
}

/// A task route's failure: either the task rules refused it or the
/// assignee's identity could not be confirmed.
#[derive(Debug)]
pub enum TaskRouteError {
    Task(SharedTaskError),
    Identity(IdentityError),
}

/// The index of the non-deleted task with the requested id.
pub open spec fn live_task_index(tasks: Seq<SharedTask>, id: u128) -> int {
    choose|i: int| live_task_at(tasks, i, id)
}

/// The health probe's answer.
pub fn health() -> (r: &'static str)
    ensures
        r@ == "ok"@,
{
    "ok"
}

/// The bulk snapshot endpoint: one consistent read of the store, tasks
/// most recently updated first.
pub fn bulk_shared_tasks(store: &OrgStore) -> (r: BulkSharedTasksResponse)
    requires
        store.wf(),
    ensures
        r.tasks@.to_multiset() == crate::store::bulk_payloads(
            store.tasks@,
            store.projects@,
            store.users@,
        ).to_multiset(),
        forall|k: int|
            0 <= k < r.tasks@.len() ==> crate::store::bulk_payloads(
                store.tasks@,
                store.projects@,
                store.users@,
            ).contains(#[trigger] r.tasks@[k]),
        crate::store::sorted_by_updated_desc(r.tasks@),
        r.deleted_task_ids@ == crate::store::bulk_deleted_ids(store.tasks@, store.projects@),
        r.latest_seq == if store.last_seq == 0 {
            Option::<i64>::None
        } else {
            Some(store.last_seq)
        },
{
    let snapshot = store.bulk_fetch();
    BulkSharedTasksResponse {
        tasks: snapshot.tasks,
        deleted_task_ids: snapshot.deleted_task_ids,
        latest_seq: snapshot.latest_seq,
    }
}

/// The task-update endpoint: resolves the task (not found without it),
/// lets only the current assignee proceed, bounds the merged text, then
/// applies the optimistic update; every rejection leaves the store
/// unchanged and writes no activity row.
pub fn update_shared_task(
    store: &mut OrgStore,
    task_id: u128,
    payload: UpdateSharedTaskRequest,
    acting_user_id: &String,
    event_id: u128,
    now: i64,
) -> (r: Result<SharedTaskResponse, SharedTaskError>)
    requires
        old(store).wf(),
        old(store).last_seq < i64::MAX,
    ensures
        final(store).wf(),
        ({
            let tasks0 = old(store).tasks@;
            let exists_live = has_live_task(tasks0, task_id);
            let li = live_task_index(tasks0, task_id);
            let t = tasks0[li];
            let is_assignee = assignee_is(t, acting_user_id@);
            let data = (UpdateSharedTaskData {
                title: payload.title,
                description: payload.description,
                status: payload.status,
                version: payload.version,
                acting_user_id: *acting_user_id,
            });
            let nt = updated_task(t, data, now);
            let text_ok = text_size_ok(
                nt.title@,
                match nt.description {
                    Some(d) => Some(d@),
                    None => None,
                },
            );
            let ver_ok = version_matches(t, payload.version);
            let proj_ok = has_project(old(store).projects@, t.project_id);
            &&& (r is Err ==> *final(store) == *old(store))
            &&& (!exists_live ==> (r matches Err(e) && e is NotFound))
            &&& (exists_live && !is_assignee ==> (r matches Err(e) && e is Forbidden))
            &&& (exists_live && is_assignee && !text_ok ==> (r matches Err(e)
                && e is PayloadTooLarge))
            &&& (exists_live && is_assignee && text_ok && !ver_ok ==> (r matches Err(
                SharedTaskError::Conflict(m),
            ) && m@ == "task version mismatch"@))
            &&& (exists_live && is_assignee && text_ok && ver_ok && !proj_ok ==> (r matches Err(
                SharedTaskError::Conflict(m),
            ) && m@ == "project not found for shared task"@))
            &&& (r is Ok <==> exists_live && is_assignee && text_ok && ver_ok && proj_ok)
            &&& (r matches Ok(resp) ==> {
                let user = user_lookup(old(store).users@, nt.assignee_user_id);
                &&& resp.task == nt
                &&& resp.user == user
                &&& final(store).tasks@ == tasks0.update(li, nt)
                &&& final(store).activity@ == old(store).activity@.push(
                    mutation_event(
                        old(store).organization_id,
                        (old(store).last_seq + 1) as i64,
                        event_id,
                        EventType::TaskUpdated,
                        now,
                        nt,
                        project_with_id(old(store).projects@, nt.project_id).metadata,
                        user,
                    ),
                )
                &&& final(store).last_seq == old(store).last_seq + 1
            })
        }),
        final(store).organization_id == old(store).organization_id,
        final(store).users == old(store).users,
        final(store).projects == old(store).projects,
{
    let ghost tasks0 = store.tasks@;
    let existing = match store.find_by_id(task_id) {
        Some(t) => t,
        None => {
            return Err(SharedTaskError::NotFound);
        },
    };
    proof {
        let li = live_task_index(tasks0, task_id);
        assert(live_task_at(tasks0, li, task_id));
        let w = choose|i: int| live_task_at(tasks0, i, task_id) && existing == tasks0[i];
        assert(live_task_at(tasks0, w, task_id) && existing == tasks0[w]);
        crate::store::lemma_unique_task_index(tasks0, li, w);
    }
    let is_assignee = match &existing.assignee_user_id {
        Some(a) => *a == *acting_user_id,
        None => false,
    };
    if !is_assignee {
        return Err(SharedTaskError::Forbidden);
    }
    let next_title = match &payload.title {
        Some(t) => t,
        None => &existing.title,
    };
    let next_description = match &payload.description {
        Some(d) => Some(d),
        None => existing.description.as_ref(),
    };
    if let Err(e) = ensure_text_size(next_title, next_description) {
        return Err(e);
    }
    let data = UpdateSharedTaskData {
        title: payload.title,
        description: payload.description,
        status: payload.status,
        version: payload.version,
        acting_user_id: acting_user_id.clone(),
    };
    proof {
        let li = live_task_index(tasks0, task_id);
        if version_matches(tasks0[li], data.version) {
            assert(update_match_at(tasks0, li, task_id, data.version, acting_user_id@));
            let m = update_match_index(tasks0, task_id, data.version, acting_user_id@);
            assert(update_match_at(tasks0, m, task_id, data.version, acting_user_id@));
            crate::store::lemma_unique_task_index(tasks0, li, m);
        } else {
            if has_update_match(tasks0, task_id, data.version, acting_user_id@) {
                let m = update_match_index(tasks0, task_id, data.version, acting_user_id@);
                assert(update_match_at(tasks0, m, task_id, data.version, acting_user_id@));
                crate::store::lemma_unique_task_index(tasks0, li, m);
            }
        }
    }
    match store.update(task_id, data, event_id, now) {
        Ok(t) => Ok(SharedTaskResponse { task: t.task, user: t.user }),
        Err(e) => Err(e),
    }
}

/// The task-deletion endpoint: resolves the task, lets only the current
/// assignee proceed, then applies the optimistic soft-delete; every
/// rejection leaves the store unchanged and writes no activity row.
pub fn delete_shared_task(
    store: &mut OrgStore,
    task_id: u128,
    payload: Option<DeleteSharedTaskRequest>,
    acting_user_id: &String,
    event_id: u128,
    now: i64,
) -> (r: Result<SharedTaskResponse, SharedTaskError>)
    requires
        old(store).wf(),
        old(store).last_seq < i64::MAX,
    ensures
        final(store).wf(),
        ({
            let tasks0 = old(store).tasks@;
            let version = match payload {
                Some(p) => p.version,
                None => None,
            };
            let exists_live = has_live_task(tasks0, task_id);
            let li = live_task_index(tasks0, task_id);
            let t = tasks0[li];
            let is_assignee = assignee_is(t, acting_user_id@);
            let nt = crate::store::deleted_task(t, *acting_user_id, now);
            let ver_ok = version_matches(t, version);
            let proj_ok = has_project(old(store).projects@, t.project_id);
            &&& (r is Err ==> *final(store) == *old(store))
            &&& (!exists_live ==> (r matches Err(e) && e is NotFound))
            &&& (exists_live && !is_assignee ==> (r matches Err(e) && e is Forbidden))
            &&& (exists_live && is_assignee && !ver_ok ==> (r matches Err(
                SharedTaskError::Conflict(m),
            ) && m@ == "task version mismatch or user not authorized"@))
            &&& (exists_live && is_assignee && ver_ok && !proj_ok ==> (r matches Err(
                SharedTaskError::Conflict(m),
            ) && m@ == "project not found for shared task"@))
            &&& (r is Ok <==> exists_live && is_assignee && ver_ok && proj_ok)
            &&& (r matches Ok(resp) ==> {
                &&& resp.task == nt
                &&& resp.user is None
                &&& final(store).tasks@ == tasks0.update(li, nt)
                &&& final(store).activity@ == old(store).activity@.push(
                    mutation_event(
                        old(store).organization_id,
                        (old(store).last_seq + 1) as i64,
                        event_id,
                        EventType::TaskDeleted,
                        now,
                        nt,
                        project_with_id(old(store).projects@, nt.project_id).metadata,
                        None,
                    ),
                )
                &&& final(store).last_seq == old(store).last_seq + 1
            })
        }),
        final(store).organization_id == old(store).organization_id,
        final(store).users == old(store).users,
        final(store).projects == old(store).projects,
{
    let ghost tasks0 = store.tasks@;
    let existing = match store.find_by_id(task_id) {
        Some(t) => t,
        None => {
            return Err(SharedTaskError::NotFound);
        },
    };
    proof {
        let li = live_task_index(tasks0, task_id);
        assert(live_task_at(tasks0, li, task_id));
        let w = choose|i: int| live_task_at(tasks0, i, task_id) && existing == tasks0[i];
        assert(live_task_at(tasks0, w, task_id) && existing == tasks0[w]);
        crate::store::lemma_unique_task_index(tasks0, li, w);
    }
    let is_assignee = match &existing.assignee_user_id {
        Some(a) => *a == *acting_user_id,
        None => false,
    };
    if !is_assignee {
        return Err(SharedTaskError::Forbidden);
    }
    let version = match &payload {
        Some(p) => p.version,
        None => None,
    };
    let data = DeleteTaskData { acting_user_id: acting_user_id.clone(), version };
    proof {
        let li = live_task_index(tasks0, task_id);
        if version_matches(tasks0[li], version) {
            assert(update_match_at(tasks0, li, task_id, version, acting_user_id@));
            let m = update_match_index(tasks0, task_id, version, acting_user_id@);
            assert(update_match_at(tasks0, m, task_id, version, acting_user_id@));
            crate::store::lemma_unique_task_index(tasks0, li, m);
        } else {
            if has_update_match(tasks0, task_id, version, acting_user_id@) {
                let m = update_match_index(tasks0, task_id, version, acting_user_id@);
                assert(update_match_at(tasks0, m, task_id, version, acting_user_id@));
                crate::store::lemma_unique_task_index(tasks0, li, m);
            }
        }
    }
    match store.delete_task(task_id, data, event_id, now) {
        Ok(t) => Ok(SharedTaskResponse { task: t.task, user: t.user }),
        Err(e) => Err(e),
    }
}


/// The assignee handed to a mutation endpoint: the provider's user
/// record and memberships, fetched for the id named in the request.
pub open spec fn assignee_arg_matches(
    assignee_user_id: Option<String>,
    assignee_user: Option<(&ClerkUser, &Vec<ClerkOrganizationMembership>)>,
) -> bool {
    match assignee_user_id {
        Some(a) => match assignee_user {
            Some(u) => u.0.id@ == a@,
            None => false,
        },
        None => true,
    }
}

/// The membership check an endpoint runs for a requested assignee: it
/// passes when no assignee is named, and otherwise exactly when the
/// fetched memberships name this organization.
pub open spec fn assignee_member_ok(
    assignee_user_id: Option<String>,
    assignee_user: Option<(&ClerkUser, &Vec<ClerkOrganizationMembership>)>,
    organization_id: Seq<char>,
) -> bool {
    match assignee_user_id {
        Some(a) => match assignee_user {
            Some(u) => crate::auth::is_member_of(u.1@, organization_id),
            None => false,
        },
        None => true,
    }
}

/// The user rows after an endpoint admitted a requested assignee.
pub open spec fn users_after_assignee(
    users: Seq<crate::identity::User>,
    assignee_user_id: Option<String>,
    assignee_user: Option<(&ClerkUser, &Vec<ClerkOrganizationMembership>)>,
    now: i64,
) -> Seq<crate::identity::User> {
    match assignee_user_id {
        Some(a) => match assignee_user {
            Some(u) => upsert_user_rows(users, *u.0, now),
            None => users,
        },
        None => users,
    }
}

/// The task-creation endpoint: bounds the text, confirms a requested
/// assignee is an organization member (admitting their user row), then
/// inserts the task with version 1 and its `TaskCreated` event.
pub fn create_shared_task(
    store: &mut OrgStore,
    payload: CreateSharedTaskRequest,
    creator_user_id: &String,
    assignee_user: Option<(&ClerkUser, &Vec<ClerkOrganizationMembership>)>,
    task_id: u128,
    new_project_id: u128,
    event_id: u128,
    now: i64,
) -> (r: Result<SharedTaskResponse, TaskRouteError>)
    requires
        old(store).wf(),
        old(store).last_seq < i64::MAX,
        forall|k: int|
            0 <= k < old(store).tasks@.len() ==> (#[trigger] old(store).tasks@[k]).id != task_id,
        !has_project_repo(old(store).projects@, payload.project.github_repository_id)
            ==> !has_project(old(store).projects@, new_project_id),
        assignee_arg_matches(payload.assignee_user_id, assignee_user),
    ensures
        final(store).wf(),
        ({
            let text_ok = text_size_ok(
                payload.title@,
                match payload.description {
                    Some(d) => Some(d@),
                    None => None,
                },
            );
            let member_ok = assignee_member_ok(
                payload.assignee_user_id,
                assignee_user,
                old(store).organization_id@,
            );
            let users1 = users_after_assignee(
                old(store).users@,
                payload.assignee_user_id,
                assignee_user,
                now,
            );
            &&& (!text_ok ==> (r matches Err(TaskRouteError::Task(e)) && e is PayloadTooLarge)
                && *final(store) == *old(store))
            &&& (text_ok && !member_ok ==> (r matches Err(TaskRouteError::Identity(
                IdentityError::Clerk(e),
            )) && e is NotFound) && *final(store) == *old(store))
            &&& (r is Ok <==> text_ok && member_ok)
            &&& (r matches Ok(resp) ==> {
                let existing = has_project_repo(
                    old(store).projects@,
                    payload.project.github_repository_id,
                );
                let proj = if existing {
                    project_with_repo(old(store).projects@, payload.project.github_repository_id)
                } else {
                    (crate::project::Project {
                        id: new_project_id,
                        organization_id: old(store).organization_id,
                        metadata: payload.project,
                    })
                };
                let data = (crate::task::CreateSharedTaskData {
                    project: payload.project,
                    title: payload.title,
                    description: payload.description,
                    creator_user_id: *creator_user_id,
                    assignee_user_id: payload.assignee_user_id,
                });
                let nt = created_task(old(store).organization_id, data, task_id, proj.id, now);
                let user = user_lookup(users1, payload.assignee_user_id);
                &&& resp.task == nt
                &&& resp.user == user
                &&& final(store).users@ == users1
                &&& final(store).tasks@ == old(store).tasks@.push(nt)
                &&& final(store).projects@ == if existing {
                    old(store).projects@
                } else {
                    old(store).projects@.push(proj)
                }
                &&& final(store).activity@ == old(store).activity@.push(
                    mutation_event(
                        old(store).organization_id,
                        (old(store).last_seq + 1) as i64,
                        event_id,
                        EventType::TaskCreated,
                        now,
                        nt,
                        proj.metadata,
                        user,
                    ),
                )
                &&& final(store).last_seq == old(store).last_seq + 1
            })
        }),
        final(store).organization_id == old(store).organization_id,
{
    if let Err(e) = ensure_text_size(&payload.title, payload.description.as_ref()) {
        return Err(TaskRouteError::Task(e));
    }
    if let Some(assignee) = &payload.assignee_user_id {
        match assignee_user {
            Some((u, memberships)) => {
                if let Err(e) = store.ensure_user(u, memberships, now) {
                    return Err(TaskRouteError::Identity(e));
                }
            },
            None => {
                return Err(
                    TaskRouteError::Identity(
                        IdentityError::Clerk(
                            crate::auth::ClerkServiceError::NotFound(assignee.clone()),
                        ),
                    ),
                );
            },
        }
    }
    let data = crate::task::CreateSharedTaskData {
        project: payload.project,
        title: payload.title,
        description: payload.description,
        creator_user_id: creator_user_id.clone(),
        assignee_user_id: payload.assignee_user_id,
    };
    match store.create(data, task_id, new_project_id, event_id, now) {
        Ok(t) => Ok(SharedTaskResponse { task: t.task, user: t.user }),
        Err(e) => Err(TaskRouteError::Task(e)),
    }
}

/// The assignment endpoint: resolves the task, lets only the current
/// assignee hand it over, confirms the new assignee's membership
/// (admitting their user row), then applies the optimistic reassignment
/// with the acting user pinned as the previous assignee; every rejection
/// writes no task change and no activity row.
pub fn assign_task(
    store: &mut OrgStore,
    task_id: u128,
    payload: AssignSharedTaskRequest,
    acting_user_id: &String,
    assignee_user: Option<(&ClerkUser, &Vec<ClerkOrganizationMembership>)>,
    event_id: u128,
    now: i64,
) -> (r: Result<SharedTaskResponse, TaskRouteError>)
    requires
        old(store).wf(),
        old(store).last_seq < i64::MAX,
        assignee_arg_matches(payload.new_assignee_user_id, assignee_user),
    ensures
        final(store).wf(),
        ({
            let tasks0 = old(store).tasks@;
            let exists_live = has_live_task(tasks0, task_id);
            let li = live_task_index(tasks0, task_id);
            let t = tasks0[li];
            let is_assignee = assignee_is(t, acting_user_id@);
            let member_ok = assignee_member_ok(
                payload.new_assignee_user_id,
                assignee_user,
                old(store).organization_id@,
            );
            let users1 = users_after_assignee(
                old(store).users@,
                payload.new_assignee_user_id,
                assignee_user,
                now,
            );
            let nt = crate::store::assigned_task(t, payload.new_assignee_user_id, now);
            let ver_ok = version_matches(t, payload.version);
            let proj_ok = has_project(old(store).projects@, t.project_id);
            &&& (r is Err ==> final(store).tasks == old(store).tasks && final(store).activity
                == old(store).activity && final(store).last_seq == old(store).last_seq
                && final(store).projects == old(store).projects)
            &&& (!exists_live ==> (r matches Err(TaskRouteError::Task(e)) && e is NotFound)
                && *final(store) == *old(store))
            &&& (exists_live && !is_assignee ==> (r matches Err(TaskRouteError::Task(e))
                && e is Forbidden) && *final(store) == *old(store))
            &&& (exists_live && is_assignee && !member_ok ==> (r matches Err(
                TaskRouteError::Identity(IdentityError::Clerk(e)),
            ) && e is NotFound) && *final(store) == *old(store))
            &&& (exists_live && is_assignee && member_ok && !ver_ok ==> (r matches Err(
                TaskRouteError::Task(SharedTaskError::Conflict(m)),
            ) && m@ == "task version or previous assignee mismatch"@))
            &&& (exists_live && is_assignee && member_ok && ver_ok && !proj_ok ==> (r matches Err(
                TaskRouteError::Task(SharedTaskError::Conflict(m)),
            ) && m@ == "project not found for shared task"@))
            &&& (r is Ok <==> exists_live && is_assignee && member_ok && ver_ok && proj_ok)
            &&& (r matches Ok(resp) ==> {
                let user = user_lookup(users1, payload.new_assignee_user_id);
                &&& resp.task == nt
                &&& resp.user == user
                &&& final(store).users@ == users1
                &&& final(store).tasks@ == tasks0.update(li, nt)
                &&& final(store).activity@ == old(store).activity@.push(
                    mutation_event(
                        old(store).organization_id,
                        (old(store).last_seq + 1) as i64,
                        event_id,
                        EventType::TaskReassigned,
                        now,
                        nt,
                        project_with_id(old(store).projects@, nt.project_id).metadata,
                        user,
                    ),
                )
                &&& final(store).last_seq == old(store).last_seq + 1
            })
        }),
        final(store).organization_id == old(store).organization_id,
{
    let ghost tasks0 = store.tasks@;
    let existing = match store.find_by_id(task_id) {
        Some(t) => t,
        None => {
            return Err(TaskRouteError::Task(SharedTaskError::NotFound));
        },
    };
    proof {
        let li = live_task_index(tasks0, task_id);
        assert(live_task_at(tasks0, li, task_id));
        let w = choose|i: int| live_task_at(tasks0, i, task_id) && existing == tasks0[i];
        assert(live_task_at(tasks0, w, task_id) && existing == tasks0[w]);
        crate::store::lemma_unique_task_index(tasks0, li, w);
    }
    let is_assignee = match &existing.assignee_user_id {
        Some(a) => *a == *acting_user_id,
        None => false,
    };
    if !is_assignee {
        return Err(TaskRouteError::Task(SharedTaskError::Forbidden));
    }
    if let Some(assignee) = &payload.new_assignee_user_id {
        match assignee_user {
            Some((u, memberships)) => {
                if let Err(e) = store.ensure_user(u, memberships, now) {
                    return Err(TaskRouteError::Identity(e));
                }
            },
            None => {
                return Err(
                    TaskRouteError::Identity(
                        IdentityError::Clerk(
                            crate::auth::ClerkServiceError::NotFound(assignee.clone()),
                        ),
                    ),
                );
            },
        }
    }
    let data = crate::task::AssignTaskData {
        new_assignee_user_id: crate::identity::opt_string_dup(&payload.new_assignee_user_id),
        previous_assignee_user_id: Some(acting_user_id.clone()),
        version: payload.version,
    };
    proof {
        let li = live_task_index(tasks0, task_id);
        let prev = Some(*acting_user_id);
        if version_matches(tasks0[li], payload.version) {
            assert(assign_match_at(store.tasks@, li, task_id, payload.version, prev));
            let m = assign_match_index(store.tasks@, task_id, payload.version, prev);
            assert(assign_match_at(store.tasks@, m, task_id, payload.version, prev));
            crate::store::lemma_unique_task_index(store.tasks@, li, m);
        } else {
            if has_assign_match(store.tasks@, task_id, payload.version, prev) {
                let m = assign_match_index(store.tasks@, task_id, payload.version, prev);
                assert(assign_match_at(store.tasks@, m, task_id, payload.version, prev));
                crate::store::lemma_unique_task_index(store.tasks@, li, m);
            }
        }
    }
    match store.assign_task(task_id, data, event_id, now) {
        Ok(t) => Ok(SharedTaskResponse { task: t.task, user: t.user }),
        Err(e) => Err(TaskRouteError::Task(e)),
    }
}

} // verus!
