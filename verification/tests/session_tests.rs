use tasksync::api::{update_shared_task, CreateSharedTaskRequest, UpdateSharedTaskRequest};
use tasksync::broker::{ActivityBroker, RecvOutcome};
use tasksync::event::{ActivityEvent, EventType, SharedTaskActivityPayload};
use tasksync::identity::ClerkIdentity;
use tasksync::project::ProjectMetadata;
use tasksync::session::{
    catch_up_from_db, on_broker_lag, open_session, plan_catch_up, AuthRefreshError,
    AuthVerifyError, CatchUpError, CatchUpPlan, LagRecovery, LiveStep, SessionState, WsAuthState,
};
use tasksync::store::OrgStore;
use tasksync::task::SharedTask;

fn task(id: u128, version: i64) -> SharedTask {
    SharedTask {
        id,
        organization_id: "org_1".to_string(),
        project_id: 1,
        creator_user_id: Some("user_a".to_string()),
        assignee_user_id: Some("user_a".to_string()),
        deleted_by_user_id: None,
        title: "t".to_string(),
        description: None,
        status: tasksync::task::TaskStatus::Todo,
        version,
        deleted_at: None,
        shared_at: Some(1),
        created_at: 1,
        updated_at: 1,
    }
}

fn event(seq: i64, org: &str) -> ActivityEvent {
    ActivityEvent {
        seq,
        event_id: seq as u128,
        organization_id: org.to_string(),
        event_type: EventType::TaskUpdated,
        created_at: seq,
        payload: SharedTaskActivityPayload {
            task: task(7, seq),
            project: ProjectMetadata {
                github_repository_id: 1,
                owner: "acme".to_string(),
                name: "widgets".to_string(),
            },
            user: None,
        },
    }
}

fn seeded_store(events: i64) -> OrgStore {
    let mut store = OrgStore::new("org_1".to_string(), "org-one".to_string());
    let a = "user_a".to_string();
    let payload = CreateSharedTaskRequest {
        project: ProjectMetadata {
            github_repository_id: 1,
            owner: "acme".to_string(),
            name: "widgets".to_string(),
        },
        title: "t".to_string(),
        description: None,
        assignee_user_id: Some("user_a".to_string()),
    };
    let assignee = tasksync::auth::ClerkUser {
        id: "user_a".to_string(),
        email: "user_a@example.com".to_string(),
        first_name: None,
        last_name: None,
        username: None,
    };
    let memberships = vec![tasksync::auth::ClerkOrganizationMembership {
        id: "org_1".to_string(),
        slug: None,
    }];
    let created = tasksync::api::create_shared_task(
        &mut store, payload, &a, Some((&assignee, &memberships)), 7, 8, 9000, 10,
    );
    assert!(created.is_ok());
    // The creation itself is seq 1; updates fill the rest.
    for v in 1..events {
        let up = UpdateSharedTaskRequest {
            title: None,
            description: None,
            status: None,
            version: Some(v),
        };
        update_shared_task(&mut store, 7, up, &a, 9000 + v as u128, 10 + v).unwrap();
    }
    assert_eq!(store.last_seq, events);
    store
}

#[test]
fn ws_catch_up_replays_history_then_goes_live() {
    // A client connecting with cursor=3 to an org whose last_seq=7 gets
    // 4,5,6,7 before any live event; a new mutation then arrives as 8.
    let mut store = seeded_store(7);
    let (mut session, history) = open_session(&store, Some(3), 200);
    assert_eq!(history.iter().map(|e| e.seq).collect::<Vec<_>>(), vec![4, 5, 6, 7]);
    assert_eq!(session.last_sent_seq, Some(7));

    let a = "user_a".to_string();
    let up = UpdateSharedTaskRequest { title: None, description: None, status: None, version: None };
    update_shared_task(&mut store, 7, up, &a, 9100, 99).unwrap();
    let live = store.activity[7].dup();
    assert_eq!(live.seq, 8);
    match session.on_broker_event(live) {
        LiveStep::Deliver(e) => assert_eq!(e.seq, 8),
        _ => panic!("expected delivery"),
    }
    assert_eq!(session.last_sent_seq, Some(8));
}

#[test]
fn duplicate_events_are_suppressed() {
    let store = seeded_store(3);
    let (mut session, history) = open_session(&store, None, 200);
    assert_eq!(history.len(), 3);
    assert_eq!(session.last_sent_seq, Some(3));
    // A duplicate from the recovery path is dropped without effect.
    match session.on_broker_event(event(2, "org_1")) {
        LiveStep::Duplicate => {}
        _ => panic!("expected suppression"),
    }
    assert_eq!(session.last_sent_seq, Some(3));
}

#[test]
fn gap_recovery_resumes_without_closing() {
    // With last_sent_seq=10 a broker event with seq=13 triggers catch-up;
    // the database still has 11 and 12, so they are sent and the session
    // resumes live.
    let store = seeded_store(13);
    let mut session = SessionState {
        organization_id: "org_1".to_string(),
        last_sent_seq: Some(10),
    };
    let step = session.on_broker_event(event(13, "org_1"));
    let (prev, target) = match step {
        LiveStep::Gap { prev, target } => (prev, target),
        _ => panic!("expected gap"),
    };
    assert_eq!((prev, target), (10, 13));
    match plan_catch_up(prev, target, 100) {
        CatchUpPlan::Fetch { target } => assert_eq!(target, 13),
        _ => panic!("expected fetch plan"),
    }
    let (sent, outcome) = catch_up_from_db(&store, prev, target, 5);
    assert_eq!(sent.iter().map(|e| e.seq).collect::<Vec<_>>(), vec![11, 12, 13]);
    assert_eq!(outcome.unwrap(), 13);
    session.advance_to(13);
    assert_eq!(session.last_sent_seq, Some(13));
}

#[test]
fn catch_up_pages_in_batches() {
    let store = seeded_store(10);
    let (sent, outcome) = catch_up_from_db(&store, 2, 9, 3);
    assert_eq!(sent.iter().map(|e| e.seq).collect::<Vec<_>>(), vec![3, 4, 5, 6, 7, 8, 9]);
    assert_eq!(outcome.unwrap(), 9);
}

#[test]
fn stale_catch_up_reports_missing_rows() {
    let store = seeded_store(5);
    let (sent, outcome) = catch_up_from_db(&store, 3, 9, 100);
    // Everything the log still had was sent before the gap was found.
    assert_eq!(sent.iter().map(|e| e.seq).collect::<Vec<_>>(), vec![4, 5]);
    assert!(matches!(outcome, Err(CatchUpError::Stale)));
}

#[test]
fn backlog_beyond_threshold_forces_bulk_sync() {
    match plan_catch_up(10, 200, 100) {
        CatchUpPlan::BulkSyncRequired => {}
        _ => panic!("expected bulk sync"),
    }
    match plan_catch_up(10, 110, 100) {
        CatchUpPlan::Fetch { target } => assert_eq!(target, 110),
        _ => panic!("expected fetch"),
    }
    match plan_catch_up(10, 10, 100) {
        CatchUpPlan::AlreadyCaughtUp => {}
        _ => panic!("expected no-op"),
    }
}

#[test]
fn broker_lag_reports_dropped_count() {
    // 200 events into a 128-slot shard: a subscriber that never drained
    // learns 72 events were dropped, then reads the oldest retained one.
    let mut broker = ActivityBroker::new(1, 128);
    let mut sub = broker.subscribe("org_1".to_string());
    for seq in 1..=200i64 {
        broker.publish(event(seq, "org_1"));
    }
    match broker.recv(&mut sub) {
        RecvOutcome::Lagged(n) => assert_eq!(n, 72),
        _ => panic!("expected lag"),
    }
    match broker.recv(&mut sub) {
        RecvOutcome::Event(e) => assert_eq!(e.seq, 73),
        _ => panic!("expected oldest retained event"),
    }
}

#[test]
fn broker_filters_by_organization() {
    // One shard forces both organizations together; each subscriber only
    // sees its own events.
    let mut broker = ActivityBroker::new(1, 16);
    let mut sub_one = broker.subscribe("org_1".to_string());
    let mut sub_two = broker.subscribe("org_2".to_string());
    broker.publish(event(1, "org_1"));
    broker.publish(event(1, "org_2"));
    broker.publish(event(2, "org_1"));
    match broker.recv(&mut sub_one) {
        RecvOutcome::Event(e) => {
            assert_eq!(e.organization_id, "org_1");
            assert_eq!(e.seq, 1);
        }
        _ => panic!("expected event"),
    }
    match broker.recv(&mut sub_one) {
        RecvOutcome::Event(e) => assert_eq!(e.seq, 2),
        _ => panic!("expected event"),
    }
    assert!(matches!(broker.recv(&mut sub_one), RecvOutcome::Pending));
    match broker.recv(&mut sub_two) {
        RecvOutcome::Event(e) => assert_eq!(e.organization_id, "org_2"),
        _ => panic!("expected event"),
    }
    assert!(matches!(broker.recv(&mut sub_two), RecvOutcome::Pending));
}

#[test]
fn shard_choice_is_stable() {
    let broker = ActivityBroker::new(16, 512);
    let one = broker.shard_index(&"org_1".to_string());
    let two = broker.shard_index(&"org_1".to_string());
    assert_eq!(one, two);
    assert!(one < 16);
}

#[test]
fn hot_subscription_skips_history() {
    let mut broker = ActivityBroker::new(4, 16);
    broker.publish(event(1, "org_1"));
    let mut sub = broker.subscribe("org_1".to_string());
    assert!(matches!(broker.recv(&mut sub), RecvOutcome::Pending));
    broker.publish(event(2, "org_1"));
    match broker.recv(&mut sub) {
        RecvOutcome::Event(e) => assert_eq!(e.seq, 2),
        _ => panic!("expected only the live event"),
    }
}

fn identity_for(user: &str, org: &str, expires_at: i64) -> ClerkIdentity {
    ClerkIdentity {
        user_id: user.to_string(),
        org_id: Some(org.to_string()),
        session_id: "sess_1".to_string(),
        expires_at,
    }
}

#[test]
fn auth_tick_accepts_matching_token() {
    let mut auth = WsAuthState::new(
        "user_a".to_string(),
        "org_1".to_string(),
        identity_for("user_a", "org_1", 100),
        5,
    );
    auth.store_token("fresh".to_string());
    assert_eq!(auth.take_pending().as_deref(), Some("fresh"));
    let r = auth.auth_tick(Some(Ok(identity_for("user_a", "org_1", 500))), 200);
    assert!(r.is_ok());
    assert_eq!(auth.latest_identity.expires_at, 500);
}

#[test]
fn auth_tick_closes_on_expiry_with_grace() {
    let mut auth = WsAuthState::new(
        "user_a".to_string(),
        "org_1".to_string(),
        identity_for("user_a", "org_1", 100),
        5,
    );
    // Within the grace period the session stays open.
    assert!(auth.auth_tick(None, 105).is_ok());
    match auth.auth_tick(None, 106) {
        Err(AuthVerifyError::Expired(id)) => assert_eq!(id.expires_at, 100),
        _ => panic!("expected expiry"),
    }
}

#[test]
fn auth_tick_rejects_foreign_tokens() {
    let mut auth = WsAuthState::new(
        "user_a".to_string(),
        "org_1".to_string(),
        identity_for("user_a", "org_1", 1000),
        5,
    );
    match auth.auth_tick(Some(Ok(identity_for("user_b", "org_1", 2000))), 10) {
        Err(AuthVerifyError::Refresh(AuthRefreshError::UserMismatch { expected, received })) => {
            assert_eq!(expected, "user_a");
            assert_eq!(received, "user_b");
        }
        _ => panic!("expected user mismatch"),
    }
    match auth.auth_tick(Some(Ok(identity_for("user_a", "org_2", 2000))), 10) {
        Err(AuthVerifyError::Refresh(AuthRefreshError::OrgMismatch { expected, received })) => {
            assert_eq!(expected, "org_1");
            assert_eq!(received.as_deref(), Some("org_2"));
        }
        _ => panic!("expected org mismatch"),
    }
    // The stored identity is untouched by refused refreshes.
    assert_eq!(auth.latest_identity.user_id, "user_a");
    match auth.auth_tick(Some(Err("token signature invalid".to_string())), 10) {
        Err(AuthVerifyError::Refresh(AuthRefreshError::Verify(m))) => {
            assert_eq!(m, "token signature invalid")
        }
        _ => panic!("expected verify error"),
    }
}

#[test]
fn open_session_without_cursor_replays_from_start() {
    let store = seeded_store(3);
    let (session, history) = open_session(&store, None, 2);
    // The default limit caps the replay; the cursor follows what was sent.
    assert_eq!(history.iter().map(|e| e.seq).collect::<Vec<_>>(), vec![1, 2]);
    assert_eq!(session.last_sent_seq, Some(2));
    let (session, history) = open_session(&store, Some(-4), 200);
    assert_eq!(history.len(), 3);
    assert_eq!(session.last_sent_seq, Some(3));
    let (session, history) = open_session(&store, Some(9), 200);
    assert!(history.is_empty());
    assert_eq!(session.last_sent_seq, Some(9));
}

#[test]
fn lag_without_baseline_forces_bulk_sync() {
    // A session that never sent anything cannot page a dropped backlog:
    // the lag signal closes it toward a bulk snapshot. With a baseline
    // the session waits for the next event to learn the target.
    let fresh = SessionState { organization_id: "org_1".to_string(), last_sent_seq: None };
    assert!(matches!(on_broker_lag(&fresh), LagRecovery::ForceBulkSync));
    let caught_up = SessionState { organization_id: "org_1".to_string(), last_sent_seq: Some(41) };
    match on_broker_lag(&caught_up) {
        LagRecovery::AwaitTarget { prev } => assert_eq!(prev, 41),
        _ => panic!("expected recovery from the cursor"),
    }
}

#[test]
fn auth_tick_does_not_consume_the_pending_token() {
    // The tick only verifies what the caller already took out; a token
    // stored during the tick's own handling stays for the next one.
    let mut auth = WsAuthState::new(
        "user_a".to_string(),
        "org_1".to_string(),
        identity_for("user_a", "org_1", 1000),
        5,
    );
    auth.store_token("queued".to_string());
    assert!(auth.auth_tick(None, 10).is_ok());
    assert_eq!(auth.take_pending().as_deref(), Some("queued"));
    assert_eq!(auth.take_pending(), None);
}
