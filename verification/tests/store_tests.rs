use tasksync::api::{
    assign_task, bulk_shared_tasks, create_shared_task, delete_shared_task, update_shared_task,
    AssignSharedTaskRequest, CreateSharedTaskRequest, DeleteSharedTaskRequest, TaskRouteError,
    UpdateSharedTaskRequest,
};
use tasksync::auth::{ClerkOrganizationMembership, ClerkUser};
use tasksync::event::EventType;
use tasksync::project::ProjectMetadata;
use tasksync::store::OrgStore;
use tasksync::task::{ensure_text_size, SharedTaskError, TaskStatus};

fn org() -> OrgStore {
    OrgStore::new("org_1".to_string(), "org-one".to_string())
}

fn metadata() -> ProjectMetadata {
    ProjectMetadata {
        github_repository_id: 4242,
        owner: "acme".to_string(),
        name: "widgets".to_string(),
    }
}

fn clerk_user(id: &str) -> ClerkUser {
    ClerkUser {
        id: id.to_string(),
        email: format!("{id}@example.com"),
        first_name: Some("Ada".to_string()),
        last_name: None,
        username: Some(id.to_string()),
    }
}

fn member_of(org_id: &str) -> Vec<ClerkOrganizationMembership> {
    vec![ClerkOrganizationMembership { id: org_id.to_string(), slug: None }]
}

fn create_task_for(store: &mut OrgStore, assignee: &str, task_id: u128) {
    let user = clerk_user(assignee);
    let memberships = member_of("org_1");
    let payload = CreateSharedTaskRequest {
        project: metadata(),
        title: "write the report".to_string(),
        description: Some("quarterly".to_string()),
        assignee_user_id: Some(assignee.to_string()),
    };
    let r = create_shared_task(
        store,
        payload,
        &assignee.to_string(),
        Some((&user, &memberships)),
        task_id,
        900 + task_id,
        1000 + task_id,
        50,
    );
    assert!(r.is_ok());
}

#[test]
fn lifecycle_emits_dense_sequence() {
    // Create, update, assign, delete by the same user A, assignee A
    // throughout: events (1, created), (2, updated), (3, reassigned),
    // (4, deleted); final task soft-deleted with version 4.
    let mut store = org();
    let a = "user_a".to_string();
    create_task_for(&mut store, "user_a", 7);
    assert_eq!(store.last_seq, 1);
    assert_eq!(store.activity[0].seq, 1);
    assert_eq!(store.activity[0].event_type, EventType::TaskCreated);
    assert_eq!(store.tasks[0].version, 1);

    let up = UpdateSharedTaskRequest {
        title: Some("write the big report".to_string()),
        description: None,
        status: Some(TaskStatus::InProgress),
        version: Some(1),
    };
    let r = update_shared_task(&mut store, 7, up, &a, 902, 60).unwrap();
    assert_eq!(r.task.version, 2);
    assert_eq!(store.activity[1].seq, 2);
    assert_eq!(store.activity[1].event_type, EventType::TaskUpdated);

    let assign = AssignSharedTaskRequest {
        new_assignee_user_id: Some("user_a".to_string()),
        version: Some(2),
    };
    let user = clerk_user("user_a");
    let memberships = member_of("org_1");
    let r = assign_task(&mut store, 7, assign, &a, Some((&user, &memberships)), 903, 70).unwrap();
    assert_eq!(r.task.version, 3);
    assert_eq!(store.activity[2].seq, 3);
    assert_eq!(store.activity[2].event_type, EventType::TaskReassigned);

    let del = DeleteSharedTaskRequest { version: Some(3) };
    let r = delete_shared_task(&mut store, 7, Some(del), &a, 904, 80).unwrap();
    assert_eq!(r.task.version, 4);
    assert!(r.task.deleted_at.is_some());
    assert_eq!(store.activity[3].seq, 4);
    assert_eq!(store.activity[3].event_type, EventType::TaskDeleted);
    assert_eq!(store.last_seq, 4);
    // The task row is retained (soft delete).
    assert_eq!(store.tasks.len(), 1);
    assert!(store.tasks[0].deleted_at.is_some());
}

#[test]
fn optimistic_conflict_rejects_second_writer() {
    // Two updates both carrying version=1: the first wins (version 2,
    // seq 2), the second gets the version-mismatch conflict and no
    // activity row is written.
    let mut store = org();
    let a = "user_a".to_string();
    create_task_for(&mut store, "user_a", 7);

    let up1 = UpdateSharedTaskRequest {
        title: Some("first".to_string()),
        description: None,
        status: None,
        version: Some(1),
    };
    let r1 = update_shared_task(&mut store, 7, up1, &a, 902, 60).unwrap();
    assert_eq!(r1.task.version, 2);
    assert_eq!(store.last_seq, 2);

    let up2 = UpdateSharedTaskRequest {
        title: Some("second".to_string()),
        description: None,
        status: None,
        version: Some(1),
    };
    let r2 = update_shared_task(&mut store, 7, up2, &a, 903, 61);
    match r2 {
        Err(SharedTaskError::Conflict(m)) => assert_eq!(m, "task version mismatch"),
        other => panic!("expected version conflict, got {:?}", other.is_ok()),
    }
    assert_eq!(store.last_seq, 2);
    assert_eq!(store.activity.len(), 2);
    assert_eq!(store.tasks[0].title, "first");
}

#[test]
fn forbidden_mutation_leaves_no_trace() {
    // User B attempts a patch on a task assigned to A: Forbidden, and no
    // activity row appears.
    let mut store = org();
    create_task_for(&mut store, "user_a", 7);
    let b = "user_b".to_string();
    let up = UpdateSharedTaskRequest {
        title: Some("hijack".to_string()),
        description: None,
        status: None,
        version: Some(1),
    };
    let r = update_shared_task(&mut store, 7, up, &b, 902, 60);
    assert!(matches!(r, Err(SharedTaskError::Forbidden)));
    assert_eq!(store.last_seq, 1);
    assert_eq!(store.activity.len(), 1);
    assert_eq!(store.tasks[0].version, 1);
    assert_eq!(store.tasks[0].updated_at, 50);

    // Delete and assign by B are refused the same way.
    let r = delete_shared_task(&mut store, 7, None, &b, 903, 61);
    assert!(matches!(r, Err(SharedTaskError::Forbidden)));
    let assign = AssignSharedTaskRequest { new_assignee_user_id: None, version: None };
    let r = assign_task(&mut store, 7, assign, &b, None, 904, 62);
    assert!(matches!(r, Err(TaskRouteError::Task(SharedTaskError::Forbidden))));
    assert_eq!(store.last_seq, 1);
}

#[test]
fn missing_task_is_not_found() {
    let mut store = org();
    let a = "user_a".to_string();
    let up = UpdateSharedTaskRequest { title: None, description: None, status: None, version: None };
    let r = update_shared_task(&mut store, 99, up, &a, 902, 60);
    assert!(matches!(r, Err(SharedTaskError::NotFound)));
    let r = delete_shared_task(&mut store, 99, None, &a, 903, 61);
    assert!(matches!(r, Err(SharedTaskError::NotFound)));
}

#[test]
fn payload_size_boundary() {
    let exactly = "x".repeat(51200);
    assert!(ensure_text_size(&exactly, None).is_ok());
    let over = "x".repeat(51201);
    assert!(matches!(ensure_text_size(&over, None), Err(SharedTaskError::PayloadTooLarge)));
    let title = "x".repeat(30000);
    let description = "y".repeat(21200);
    assert!(ensure_text_size(&title, Some(&description)).is_ok());
    let description = "y".repeat(21201);
    assert!(matches!(
        ensure_text_size(&title, Some(&description)),
        Err(SharedTaskError::PayloadTooLarge)
    ));
}

#[test]
fn oversized_create_is_rejected_without_effect() {
    let mut store = org();
    let payload = CreateSharedTaskRequest {
        project: metadata(),
        title: "t".repeat(51201),
        description: None,
        assignee_user_id: None,
    };
    let r = create_shared_task(&mut store, payload, &"user_a".to_string(), None, 7, 8, 9, 50);
    assert!(matches!(r, Err(TaskRouteError::Task(SharedTaskError::PayloadTooLarge))));
    assert_eq!(store.last_seq, 0);
    assert_eq!(store.tasks.len(), 0);
    assert_eq!(store.projects.len(), 0);
}

#[test]
fn assignee_must_be_org_member() {
    let mut store = org();
    let user = clerk_user("user_x");
    let outside = vec![ClerkOrganizationMembership { id: "other_org".to_string(), slug: None }];
    let payload = CreateSharedTaskRequest {
        project: metadata(),
        title: "t".to_string(),
        description: None,
        assignee_user_id: Some("user_x".to_string()),
    };
    let r = create_shared_task(
        &mut store,
        payload,
        &"user_a".to_string(),
        Some((&user, &outside)),
        7,
        8,
        9,
        50,
    );
    assert!(matches!(
        r,
        Err(TaskRouteError::Identity(tasksync::auth::IdentityError::Clerk(
            tasksync::auth::ClerkServiceError::NotFound(_)
        )))
    ));
    assert_eq!(store.last_seq, 0);
    assert_eq!(store.users.len(), 0);
}

#[test]
fn create_reuses_project_by_repo_id() {
    let mut store = org();
    create_task_for(&mut store, "user_a", 7);
    assert_eq!(store.projects.len(), 1);
    create_task_for(&mut store, "user_a", 8);
    // Same repository id: the existing project row is reused.
    assert_eq!(store.projects.len(), 1);
    assert_eq!(store.tasks.len(), 2);
    assert_eq!(store.last_seq, 2);
}

#[test]
fn update_merges_only_supplied_fields() {
    let mut store = org();
    let a = "user_a".to_string();
    create_task_for(&mut store, "user_a", 7);
    let up = UpdateSharedTaskRequest {
        title: None,
        description: None,
        status: Some(TaskStatus::Done),
        version: None,
    };
    let r = update_shared_task(&mut store, 7, up, &a, 902, 60).unwrap();
    assert_eq!(r.task.title, "write the report");
    assert_eq!(r.task.description.as_deref(), Some("quarterly"));
    assert_eq!(r.task.status, TaskStatus::Done);
    assert_eq!(r.task.version, 2);
    assert_eq!(r.task.updated_at, 60);
    assert_eq!(r.task.created_at, 50);
}

#[test]
fn assign_with_stale_version_is_conflict() {
    let mut store = org();
    let a = "user_a".to_string();
    create_task_for(&mut store, "user_a", 7);
    let user = clerk_user("user_b");
    let memberships = member_of("org_1");
    let assign = AssignSharedTaskRequest {
        new_assignee_user_id: Some("user_b".to_string()),
        version: Some(5),
    };
    let r = assign_task(&mut store, 7, assign, &a, Some((&user, &memberships)), 903, 70);
    match r {
        Err(TaskRouteError::Task(SharedTaskError::Conflict(m))) => {
            assert_eq!(m, "task version or previous assignee mismatch")
        }
        _ => panic!("expected conflict"),
    }
    // The membership admission ran, but no task change and no event.
    assert_eq!(store.last_seq, 1);
    assert_eq!(store.tasks[0].version, 1);
}

#[test]
fn transactional_coupling_latest_event_mirrors_row() {
    // Every committed mutation leaves exactly one event whose payload
    // version matches the post-state of the row.
    let mut store = org();
    let a = "user_a".to_string();
    create_task_for(&mut store, "user_a", 7);
    let up = UpdateSharedTaskRequest {
        title: Some("v2".to_string()),
        description: None,
        status: None,
        version: None,
    };
    update_shared_task(&mut store, 7, up, &a, 902, 60).unwrap();
    assert_eq!(store.activity.len(), 2);
    let last = &store.activity[1];
    assert_eq!(last.payload.task.id, store.tasks[0].id);
    assert_eq!(last.payload.task.version, store.tasks[0].version);
    assert_eq!(last.payload.task.title, store.tasks[0].title);
}

#[test]
fn bulk_snapshot_is_consistent() {
    let mut store = org();
    let a = "user_a".to_string();
    create_task_for(&mut store, "user_a", 7);
    create_task_for(&mut store, "user_a", 8);
    delete_shared_task(&mut store, 8, None, &a, 903, 70).unwrap();

    let snapshot = bulk_shared_tasks(&store);
    assert_eq!(snapshot.tasks.len(), 1);
    assert_eq!(snapshot.tasks[0].task.id, 7);
    assert_eq!(snapshot.deleted_task_ids, vec![8]);
    assert_eq!(snapshot.latest_seq, Some(3));
    // No returned task is newer than its latest event at latest_seq.
    assert_eq!(snapshot.tasks[0].task.version, store.activity[0].payload.task.version);
}

#[test]
fn bulk_snapshot_orders_by_recency() {
    let mut store = org();
    let a = "user_a".to_string();
    create_task_for(&mut store, "user_a", 7);
    create_task_for(&mut store, "user_a", 8);
    create_task_for(&mut store, "user_a", 9);
    // Touch the oldest task last: it must come first in the snapshot.
    let up = UpdateSharedTaskRequest { title: None, description: None, status: None, version: None };
    update_shared_task(&mut store, 7, up, &a, 950, 90).unwrap();

    let snapshot = bulk_shared_tasks(&store);
    let ids: Vec<u128> = snapshot.tasks.iter().map(|p| p.task.id).collect();
    assert_eq!(ids[0], 7);
    assert_eq!(ids.len(), 3);
    let stamps: Vec<i64> = snapshot.tasks.iter().map(|p| p.task.updated_at).collect();
    assert!(stamps.windows(2).all(|w| w[0] >= w[1]));
}

#[test]
fn bulk_snapshot_of_empty_store() {
    let store = org();
    let snapshot = bulk_shared_tasks(&store);
    assert!(snapshot.tasks.is_empty());
    assert!(snapshot.deleted_task_ids.is_empty());
    assert_eq!(snapshot.latest_seq, None);
}

#[test]
fn fetch_since_pages_and_clamps() {
    let mut store = org();
    let a = "user_a".to_string();
    create_task_for(&mut store, "user_a", 7);
    for v in 1..5i64 {
        let up = UpdateSharedTaskRequest {
            title: None,
            description: None,
            status: None,
            version: Some(v),
        };
        update_shared_task(&mut store, 7, up, &a, 910 + v as u128, 60 + v).unwrap();
    }
    assert_eq!(store.last_seq, 5);
    let all = store.fetch_since(None, 100);
    assert_eq!(all.iter().map(|e| e.seq).collect::<Vec<_>>(), vec![1, 2, 3, 4, 5]);
    let tail = store.fetch_since(Some(3), 100);
    assert_eq!(tail.iter().map(|e| e.seq).collect::<Vec<_>>(), vec![4, 5]);
    let page = store.fetch_since(Some(1), 2);
    assert_eq!(page.iter().map(|e| e.seq).collect::<Vec<_>>(), vec![2, 3]);
    let negative = store.fetch_since(Some(-10), 2);
    assert_eq!(negative.iter().map(|e| e.seq).collect::<Vec<_>>(), vec![1, 2]);
    let beyond = store.fetch_since(Some(9), 10);
    assert!(beyond.is_empty());
    let none = store.fetch_since(Some(2), 0);
    assert!(none.is_empty());
}

#[test]
fn version_strictly_increases_by_one() {
    let mut store = org();
    let a = "user_a".to_string();
    create_task_for(&mut store, "user_a", 7);
    let mut seen = vec![store.tasks[0].version];
    for v in 1..4i64 {
        let up = UpdateSharedTaskRequest {
            title: None,
            description: None,
            status: None,
            version: Some(v),
        };
        update_shared_task(&mut store, 7, up, &a, 920 + v as u128, 60 + v).unwrap();
        seen.push(store.tasks[0].version);
    }
    assert_eq!(seen, vec![1, 2, 3, 4]);
}

#[test]
fn ensure_user_requires_membership() {
    let mut store = org();
    let user = clerk_user("user_a");
    let good = member_of("org_1");
    let r = store.ensure_user(&user, &good, 10);
    assert!(r.is_ok());
    assert_eq!(store.users.len(), 1);
    assert_eq!(store.members, vec!["user_a".to_string()]);

    // Upsert again: still one row, profile refreshed.
    let mut user2 = clerk_user("user_a");
    user2.first_name = Some("Grace".to_string());
    let r = store.ensure_user(&user2, &good, 20);
    assert!(r.is_ok());
    assert_eq!(store.users.len(), 1);
    assert_eq!(store.users[0].first_name.as_deref(), Some("Grace"));
    assert_eq!(store.users[0].created_at, 10);
    assert_eq!(store.users[0].updated_at, 20);
    assert_eq!(store.members.len(), 1);

    let bad = member_of("another");
    let r = store.ensure_user(&clerk_user("user_b"), &bad, 30);
    assert!(r.is_err());
    assert_eq!(store.users.len(), 1);
}
