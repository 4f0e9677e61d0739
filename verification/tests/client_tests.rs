use tasksync::client::{
    convert_remote_task, interpret_server_message, local_sync_plan, plan_client_catch_up, Backoff,
    ClientStore, ClientWsAction, RemoteSync, SharedTaskInput, SyncCatchUpPlan,
    WS_BACKOFF_BASE_DELAY_MS, WS_BACKOFF_MAX_DELAY_MS,
};
use tasksync::event::{ActivityEvent, EventType, SharedTaskActivityPayload};
use tasksync::identity::UserData;
use tasksync::project::ProjectMetadata;
use tasksync::session::ServerMessage;
use tasksync::task::TaskStatus;

fn remote_task(id: u128, version: i64, deleted: bool) -> tasksync::task::SharedTask {
    tasksync::task::SharedTask {
        id,
        organization_id: "org_1".to_string(),
        project_id: 1,
        creator_user_id: Some("user_a".to_string()),
        assignee_user_id: Some("user_b".to_string()),
        deleted_by_user_id: None,
        title: format!("task {id} v{version}"),
        description: Some("d".to_string()),
        status: TaskStatus::InProgress,
        version,
        deleted_at: if deleted { Some(90) } else { None },
        shared_at: Some(1),
        created_at: 1,
        updated_at: 2,
    }
}

fn event(seq: i64, task_id: u128, kind: EventType) -> ActivityEvent {
    ActivityEvent {
        seq,
        event_id: seq as u128,
        organization_id: "org_1".to_string(),
        event_type: kind,
        created_at: seq,
        payload: SharedTaskActivityPayload {
            task: remote_task(task_id, seq, matches!(kind, EventType::TaskDeleted)),
            project: ProjectMetadata {
                github_repository_id: 55,
                owner: "acme".to_string(),
                name: "widgets".to_string(),
            },
            user: Some(UserData {
                id: "user_b".to_string(),
                first_name: Some("Bea".to_string()),
                last_name: None,
                username: Some("bea".to_string()),
            }),
        },
    }
}

fn mirror_fields(store: &ClientStore) -> Vec<(u128, i64, Option<i64>, String)> {
    store
        .tasks
        .iter()
        .map(|t| (t.id, t.version, t.last_event_seq, t.title.clone()))
        .collect()
}

#[test]
fn processor_applies_events_exactly_once() {
    // Applying the full event log twice yields the same local state as
    // applying it once, and the cursor only moves forward.
    let mut store = ClientStore::new("org_1".to_string());
    let log = vec![
        event(1, 7, EventType::TaskCreated),
        event(2, 7, EventType::TaskUpdated),
        event(3, 8, EventType::TaskCreated),
        event(4, 8, EventType::TaskDeleted),
    ];
    for e in &log {
        assert!(store.process_event(e, Some(11), 100));
    }
    let once_tasks = mirror_fields(&store);
    let once_cursor = store.cursor_get().map(|c| (c.last_seq, c.updated_at));
    assert_eq!(once_tasks, vec![(7, 2, Some(2), "task 7 v2".to_string())]);
    assert_eq!(once_cursor, Some((4, 100)));

    // The second pass is entirely skipped: state is byte-identical even
    // though the clock moved.
    for e in &log {
        assert!(!store.process_event(e, Some(11), 999));
    }
    assert_eq!(mirror_fields(&store), once_tasks);
    assert_eq!(store.cursor_get().map(|c| (c.last_seq, c.updated_at)), once_cursor);
}

#[test]
fn processor_skips_at_or_below_cursor() {
    let mut store = ClientStore::new("org_1".to_string());
    assert!(store.process_event(&event(5, 7, EventType::TaskCreated), None, 10));
    assert!(!store.process_event(&event(5, 7, EventType::TaskUpdated), None, 11));
    assert!(!store.process_event(&event(3, 7, EventType::TaskUpdated), None, 12));
    assert_eq!(store.cursor_get().unwrap().last_seq, 5);
    assert!(store.process_event(&event(6, 7, EventType::TaskUpdated), None, 13));
    assert_eq!(store.cursor_get().unwrap().last_seq, 6);
}

#[test]
fn deletion_event_removes_the_mirror_row() {
    let mut store = ClientStore::new("org_1".to_string());
    assert!(store.process_event(&event(1, 7, EventType::TaskCreated), None, 10));
    assert_eq!(store.tasks.len(), 1);
    assert!(store.process_event(&event(2, 7, EventType::TaskDeleted), None, 11));
    assert!(store.tasks.is_empty());
    // The deletion still advanced the cursor.
    assert_eq!(store.cursor_get().unwrap().last_seq, 2);
}

#[test]
fn upsert_is_keyed_by_task_id() {
    let mut store = ClientStore::new("org_1".to_string());
    let input = convert_remote_task(&remote_task(7, 1, false), None, Some(11), Some(55), Some(1));
    store.upsert(input);
    let input = convert_remote_task(&remote_task(7, 2, false), None, Some(11), Some(55), Some(2));
    store.upsert(input);
    assert_eq!(store.tasks.len(), 1);
    assert_eq!(store.tasks[0].version, 2);
    assert_eq!(store.tasks[0].last_event_seq, Some(2));
    assert!(store.find_by_id(7).is_some());
    store.remove(7);
    assert!(store.find_by_id(7).is_none());
}

#[test]
fn remove_many_deletes_each_listed_row() {
    let mut store = ClientStore::new("org_1".to_string());
    for id in [7u128, 8, 9] {
        let input =
            convert_remote_task(&remote_task(id, 1, false), None, Some(11), Some(55), Some(1));
        store.upsert(input);
    }
    store.remove_many(&vec![7, 9, 99]);
    assert_eq!(store.tasks.len(), 1);
    assert_eq!(store.tasks[0].id, 8);
}

#[test]
fn convert_remote_task_copies_payload_fields() {
    let user = UserData {
        id: "user_b".to_string(),
        first_name: Some("Bea".to_string()),
        last_name: Some("Smith".to_string()),
        username: Some("bea".to_string()),
    };
    let input: SharedTaskInput =
        convert_remote_task(&remote_task(7, 3, false), Some(&user), Some(11), Some(55), Some(9));
    assert_eq!(input.id, 7);
    assert_eq!(input.organization_id, "org_1");
    assert_eq!(input.project_id, Some(11));
    assert_eq!(input.github_repo_id, Some(55));
    assert_eq!(input.title, "task 7 v3");
    assert_eq!(input.status, TaskStatus::InProgress);
    assert_eq!(input.assignee_user_id.as_deref(), Some("user_b"));
    assert_eq!(input.assignee_first_name.as_deref(), Some("Bea"));
    assert_eq!(input.assignee_last_name.as_deref(), Some("Smith"));
    assert_eq!(input.assignee_username.as_deref(), Some("bea"));
    assert_eq!(input.version, 3);
    assert_eq!(input.last_event_seq, Some(9));
}

#[test]
fn backoff_doubles_to_cap_and_resets() {
    let mut backoff = Backoff::new();
    assert_eq!(backoff.current_ms, WS_BACKOFF_BASE_DELAY_MS);
    let mut waits = Vec::new();
    for _ in 0..7 {
        waits.push(backoff.advance());
    }
    assert_eq!(waits, vec![1000, 2000, 4000, 8000, 16000, 30000, 30000]);
    backoff.reset();
    assert_eq!(backoff.current_ms, WS_BACKOFF_BASE_DELAY_MS);
    assert_eq!(WS_BACKOFF_MAX_DELAY_MS, 30000);
}

#[test]
fn catch_up_plan_prefers_bulk_when_behind() {
    assert!(matches!(plan_client_catch_up(None, Some(10), 100), SyncCatchUpPlan::BulkSnapshot));
    assert!(matches!(
        plan_client_catch_up(Some(5), Some(200), 100),
        SyncCatchUpPlan::BulkSnapshot
    ));
    match plan_client_catch_up(Some(5), Some(100), 100) {
        SyncCatchUpPlan::Incremental { after } => assert_eq!(after, 5),
        _ => panic!("expected incremental"),
    }
    match plan_client_catch_up(Some(5), None, 100) {
        SyncCatchUpPlan::Incremental { after } => assert_eq!(after, 5),
        _ => panic!("expected incremental"),
    }
}

#[test]
fn remote_sync_tracks_backoff_and_cursor() {
    let mut store = ClientStore::new("org_1".to_string());
    store.cursor_upsert(5, 10);
    let mut sync = RemoteSync::new(store, 100);
    match sync.catch_up_plan(Some(20)) {
        SyncCatchUpPlan::Incremental { after } => assert_eq!(after, 5),
        _ => panic!("expected incremental"),
    }
    assert!(matches!(sync.catch_up_plan(Some(500)), SyncCatchUpPlan::BulkSnapshot));
    assert_eq!(sync.on_ws_closed(), 1000);
    assert_eq!(sync.on_ws_closed(), 2000);
    sync.on_ws_connected();
    assert_eq!(sync.backoff.current_ms, 1000);
}

#[test]
fn server_error_frames_trigger_resync() {
    match interpret_server_message(ServerMessage::Error {
        message: "activity backlog dropped".to_string(),
    }) {
        ClientWsAction::CloseAndResync { message } => {
            assert_eq!(message, "activity backlog dropped")
        }
        _ => panic!("expected close"),
    }
    match interpret_server_message(ServerMessage::Activity(event(1, 7, EventType::TaskCreated))) {
        ClientWsAction::ProcessActivity(e) => assert_eq!(e.seq, 1),
        _ => panic!("expected processing"),
    }
}

#[test]
fn local_sync_plan_materializes_for_assignee_only() {
    let mut mirror = tasksync::client::SharedTask {
        id: 7,
        organization_id: "org_1".to_string(),
        project_id: Some(11),
        github_repo_id: Some(55),
        title: "t".to_string(),
        description: None,
        status: TaskStatus::Todo,
        assignee_user_id: Some("user_b".to_string()),
        assignee_first_name: None,
        assignee_last_name: None,
        assignee_username: None,
        version: 1,
        last_event_seq: Some(1),
        created_at: 1,
        updated_at: 2,
    };
    let current = "user_b".to_string();
    let creator = "user_a".to_string();
    let (st, create) = local_sync_plan(&mirror, Some(&current), Some(&creator)).unwrap();
    assert_eq!(st.shared_task_id, 7);
    assert_eq!(st.project_id, 11);
    assert!(create);
    // The creator does not get a second local task for their own work.
    let (_, create) = local_sync_plan(&mirror, Some(&current), Some(&current)).unwrap();
    assert!(!create);
    // Someone else's task is mirrored without materializing.
    let other = "user_c".to_string();
    let (_, create) = local_sync_plan(&mirror, Some(&other), Some(&creator)).unwrap();
    assert!(!create);
    // Without a local project link there is nothing to sync.
    mirror.project_id = None;
    assert!(local_sync_plan(&mirror, Some(&current), Some(&creator)).is_none());
}

#[test]
fn orphan_rows_are_backlinked_once() {
    let mut store = ClientStore::new("org_1".to_string());
    for id in [7u128, 8] {
        let input = convert_remote_task(&remote_task(id, 1, false), None, None, Some(55), Some(1));
        store.upsert(input);
    }
    let input = convert_remote_task(&remote_task(9, 1, false), None, None, Some(77), Some(1));
    store.upsert(input);

    let linked = store.link_to_project_by_repo_id(55, 11, 42);
    assert_eq!(linked.len(), 2);
    assert!(linked.iter().all(|t| t.project_id == Some(11) && t.updated_at == 42));
    assert_eq!(store.tasks[0].project_id, Some(11));
    assert_eq!(store.tasks[1].project_id, Some(11));
    assert_eq!(store.tasks[2].project_id, None);

    // Already linked rows are left alone on a second pass.
    let linked = store.link_to_project_by_repo_id(55, 11, 43);
    assert!(linked.is_empty());
    assert_eq!(store.tasks[0].updated_at, 42);
}

#[test]
fn list_filters_by_org_and_project() {
    let mut store = ClientStore::new("org_1".to_string());
    let input = convert_remote_task(&remote_task(7, 1, false), None, Some(11), Some(55), Some(1));
    store.upsert(input);
    let input = convert_remote_task(&remote_task(8, 1, false), None, Some(12), Some(56), Some(1));
    store.upsert(input);
    let by_org = store.list_by_organization(&"org_1".to_string());
    assert_eq!(by_org.len(), 2);
    let by_project = store.list_by_project_id(12);
    assert_eq!(by_project.len(), 1);
    assert_eq!(by_project[0].id, 8);
    assert!(store.list_by_organization(&"org_x".to_string()).is_empty());
}
