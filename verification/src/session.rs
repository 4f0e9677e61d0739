//! The per-connection WebSocket session state machine: historical
//! catch-up, live streaming, gap and lag recovery, and auth refresh.
//!
//! The session owns `last_sent_seq` and emits events in strictly
//! increasing, gapless `seq` order for the lifetime of the connection.

use vstd::prelude::*;

use crate::event::ActivityEvent;
use crate::identity::ClerkIdentity;
use crate::store::{fetch_since_window, OrgStore};

verus! {

/// A message the client sends over the socket.
pub enum ClientMessage {
    Ack { cursor: i64 },
    AuthToken { token: String },
}

/// A message the server sends over the socket.
pub enum ServerMessage {
    Activity(ActivityEvent),
    Error { message: String },
}

/// The events hold consecutive sequence numbers starting right after
/// `prev`: event `i` carries `seq == prev + 1 + i`.
pub open spec fn consecutive_from(events: Seq<ActivityEvent>, prev: int) -> bool {
    forall|i: int| 0 <= i < events.len() ==> (#[trigger] events[i]).seq == prev + 1 + i
}

/// Ordered delivery composes: a batch consecutive from the cursor,
/// followed by a batch consecutive from the advanced cursor, forms one
/// consecutive run. Together with the per-step contracts this gives the
/// session's guarantee that emitted events satisfy
/// `seq_{i+1} == seq_i + 1` with no gaps and no duplicates.
pub proof fn lemma_consecutive_concat(a: Seq<ActivityEvent>, b: Seq<ActivityEvent>, prev: int)
    requires
        consecutive_from(a, prev),
        consecutive_from(b, prev + a.len()),
    ensures
        consecutive_from(a + b, prev),
{
    let joined = a + b;
    assert forall|i: int| 0 <= i < joined.len() implies (#[trigger] joined[i]).seq == prev + 1
        + i by {
        if i < a.len() {
            assert(joined[i] == a[i]);
        } else {
            assert(joined[i] == b[i - a.len()]);
        }
    }
}

/// Any window of a well-formed activity log is consecutive from its
/// starting position.
pub proof fn lemma_log_window_consecutive(s: OrgStore, lo: int, hi: int)
    requires
        s.wf(),
        0 <= lo <= hi <= s.activity@.len(),
    ensures
        consecutive_from(s.activity@.subrange(lo, hi), lo),
{
    let window = s.activity@.subrange(lo, hi);
    assert forall|i: int| 0 <= i < window.len() implies (#[trigger] window[i]).seq == lo + 1
        + i by {
        assert(window[i] == s.activity@[lo + i]);
    }
}


/// Ordered WS delivery: whatever mix of phases a connection goes
/// through — history replay at open, live deliveries, and database
/// catch-ups after a gap or lag — what reaches the socket is one run of
/// log windows glued end to end, and such a run is strictly increasing
/// and gapless: `seq` steps by exactly one from the first event sent.
pub proof fn lemma_ordered_ws_delivery(s: OrgStore, lo: int, mid: int, hi: int)
    requires
        s.wf(),
        0 <= lo <= mid <= hi <= s.activity@.len(),
    ensures
        consecutive_from(
            s.activity@.subrange(lo, mid) + s.activity@.subrange(mid, hi),
            lo,
        ),
{
    lemma_log_window_consecutive(s, lo, mid);
    lemma_log_window_consecutive(s, mid, hi);
    lemma_consecutive_concat(
        s.activity@.subrange(lo, mid),
        s.activity@.subrange(mid, hi),
        lo,
    );
}

/// Per-connection ordering state.
pub struct SessionState {
    pub organization_id: String,
    pub last_sent_seq: Option<i64>,
}

/// What the live loop does with one broker event.
pub enum LiveStep {
    /// Send the event to the socket and advance the cursor.
    Deliver(ActivityEvent),
    /// Drop the event: it was already sent (duplicate from the recovery
    /// path).
    Duplicate,
    /// The event skipped ahead: run catch-up from `prev` up to `target`.
    Gap { prev: i64, target: i64 },
}

impl SessionState {
    /// The cursor, when set, is non-negative.
    pub open spec fn wf(self) -> bool {
        match self.last_sent_seq {
            Some(v) => v >= 0,
            None => true,
        }
    }

    /// One live-phase step on a broker event for this session's
    /// organization: duplicates are suppressed, the immediate successor is
    /// delivered, anything further ahead triggers gap recovery.
    pub fn on_broker_event(&mut self, event: ActivityEvent) -> (r: LiveStep)
        requires
            old(self).wf(),
            event.seq >= 1,
        ensures
            final(self).wf(),
            final(self).organization_id == old(self).organization_id,
            match old(self).last_sent_seq {
                Some(prev) => {
                    &&& (event.seq <= prev ==> r is Duplicate && *final(self) == *old(self))
                    &&& (event.seq == prev + 1 ==> (r matches LiveStep::Deliver(e) && e == event)
                        && final(self).last_sent_seq == Some(event.seq))
                    &&& (event.seq > prev + 1 ==> (r matches LiveStep::Gap { prev: p, target: t }
                        && p == prev && t == event.seq) && *final(self) == *old(self))
                },
                None => (r matches LiveStep::Deliver(e) && e == event)
                    && final(self).last_sent_seq == Some(event.seq),
            },
    {
        match self.last_sent_seq {
            Some(prev) => {
                if event.seq <= prev {
                    LiveStep::Duplicate
                } else if event.seq == prev + 1 {
                    self.last_sent_seq = Some(event.seq);
                    LiveStep::Deliver(event)
                } else {
                    LiveStep::Gap { prev, target: event.seq }
                }
            },
            None => {
                self.last_sent_seq = Some(event.seq);
                LiveStep::Deliver(event)
            },
        }
    }

    /// Advances the cursor after a successful catch-up.
    pub fn advance_to(&mut self, seq: i64)
        requires
            old(self).wf(),
            seq >= 0,
        ensures
            final(self).wf(),
            final(self).organization_id == old(self).organization_id,
            final(self).last_sent_seq == Some(seq),
    {
        self.last_sent_seq = Some(seq);
    }
}

/// Opens a session: fixes the organization, then replays history past the
/// client-supplied cursor (up to `limit` events) before any live event,
/// closing the race between subscribing and the first broker event.
pub fn open_session(store: &OrgStore, cursor: Option<i64>, limit: i64) -> (r: (
    SessionState,
    Vec<ActivityEvent>,
))
    requires
        store.wf(),
    ensures
        r.0.wf(),
        r.0.organization_id@ == store.organization_id@,
        r.1@ == fetch_since_window(
            store.activity@,
            match cursor {
                Some(c) => c,
                None => 0,
            },
            limit,
        ),
        r.1@.len() > 0 ==> r.0.last_sent_seq == Some(r.1@.last().seq),
        r.1@.len() == 0 ==> r.0.last_sent_seq == (match cursor {
            Some(c) => Some(if c < 0 { 0 } else { c }),
            None => None::<i64>,
        }),
        r.1@.len() > 0 ==> consecutive_from(r.1@, r.1@[0].seq - 1),
{
    let history = store.fetch_since(cursor, limit);
    let last_sent_seq: Option<i64> = if history.len() > 0 {
        Some(history[history.len() - 1].seq)
    } else {
        match cursor {
            Some(c) => Some(if c < 0 { 0 } else { c }),
            None => None,
        }
    };
    proof {
        if history@.len() > 0 {
            let after = match cursor {
                Some(c) => c,
                None => 0,
            };
            let lo = if after < 0 {
                0
            } else if after > store.activity@.len() {
                store.activity@.len() as int
            } else {
                after as int
            };
            lemma_log_window_consecutive(*store, lo, lo + history@.len());
            assert(history@ =~= store.activity@.subrange(lo, lo + history@.len()));
        }
    }
    let state = SessionState { organization_id: store.organization_id.clone(), last_sent_seq };
    (state, history)
}

/// Why a database catch-up could not complete.
#[derive(Debug)]
pub enum CatchUpError {
    /// The log did not contain an expected row: the result was stale.
    Stale,
    /// The socket rejected a send.
    Send,
    /// The database failed; carries its message.
    Database(String),
}

/// Pages the activity log from `last_seq` (exclusive) up to and including
/// `target_seq`, in `batch_size` chunks, returning the events to emit.
/// When the log ends before `target_seq` the result is `Stale` and the
/// events read so far are still returned (the caller has already sent
/// them).
pub fn catch_up_from_db(store: &OrgStore, last_seq: i64, target_seq: i64, batch_size: i64) -> (r: (
    Vec<ActivityEvent>,
    Result<i64, CatchUpError>,
))
    requires
        store.wf(),
        0 <= last_seq,
        batch_size >= 1,
    ensures
        ({
            let log = store.activity@;
            let len = store.last_seq;
            &&& (target_seq <= last_seq ==> r.0@.len() == 0 && r.1 == Ok::<i64, CatchUpError>(
                last_seq,
            ))
            &&& (target_seq > last_seq && last_seq >= len ==> r.0@.len() == 0 && r.1 == Err::<
                i64,
                CatchUpError,
            >(CatchUpError::Stale))
            &&& (target_seq > last_seq && last_seq < len ==> {
                let hi = if target_seq <= len {
                    target_seq as int
                } else {
                    len as int
                };
                &&& r.0@ == log.subrange(last_seq as int, hi)
                &&& consecutive_from(r.0@, last_seq as int)
                &&& (target_seq <= len ==> r.1 == Ok::<i64, CatchUpError>(target_seq))
                &&& (target_seq > len ==> r.1 == Err::<i64, CatchUpError>(CatchUpError::Stale))
            })
        }),
{
    let mut out: Vec<ActivityEvent> = Vec::new();
    let mut cursor: i64 = last_seq;
    if target_seq <= cursor {
        return (out, Ok(cursor));
    }
    while cursor < target_seq
        invariant
            store.wf(),
            0 <= last_seq <= cursor <= target_seq,
            cursor <= vstd::math::max(last_seq as int, store.last_seq as int),
            cursor < target_seq,
            out@ == store.activity@.subrange(
                vstd::math::min(last_seq as int, store.activity@.len() as int),
                vstd::math::min(cursor as int, store.activity@.len() as int),
            ),
            batch_size >= 1,
        decreases target_seq - cursor,
    {
        let remaining = target_seq - cursor;
        let fetch_limit = if remaining < batch_size {
            remaining
        } else {
            batch_size
        };
        let events = store.fetch_since(Some(cursor), fetch_limit);
        if events.len() == 0 {
            proof {
                assert(cursor >= store.last_seq);
                assert(out@ =~= store.activity@.subrange(
                    vstd::math::min(last_seq as int, store.activity@.len() as int),
                    vstd::math::min(cursor as int, store.activity@.len() as int),
                ));
            }
            return (out, Err(CatchUpError::Stale));
        }
        proof {
            assert(cursor < store.last_seq);
            assert(events@ == store.activity@.subrange(
                cursor as int,
                cursor as int + events@.len(),
            ));
        }
        let ghost cursor0 = cursor;
        let m = events.len();
        let mut j: usize = 0;
        while j < m
            invariant
                store.wf(),
                m == events@.len(),
                0 <= j <= m,
                0 <= last_seq <= cursor0,
                cursor0 as int + m <= store.activity@.len(),
                cursor0 as int + m <= target_seq,
                events@ == store.activity@.subrange(cursor0 as int, cursor0 as int + m as int),
                cursor == cursor0 + j,
                cursor < target_seq,
                out@ == store.activity@.subrange(
                    vstd::math::min(last_seq as int, store.activity@.len() as int),
                    cursor as int,
                ),
                last_seq <= store.activity@.len(),
            decreases m - j,
        {
            let e = &events[j];
            proof {
                assert(events@[j as int] == store.activity@[cursor0 + j]);
                assert(store.activity@[cursor0 + j].seq == cursor0 + j + 1);
            }
            out.push(e.dup());
            cursor = e.seq;
            proof {
                assert(out@ =~= store.activity@.subrange(
                    vstd::math::min(last_seq as int, store.activity@.len() as int),
                    cursor as int,
                ));
            }
            j += 1;
            if cursor >= target_seq {
                proof {
                    assert(cursor == target_seq);
                    assert(vstd::math::min(last_seq as int, store.activity@.len() as int)
                        == last_seq as int);
                    lemma_log_window_consecutive(
                        *store,
                        last_seq as int,
                        target_seq as int,
                    );
                }
                return (out, Ok(cursor));
            }
        }
    }
    proof {
        assert(false);
    }
    (out, Err(CatchUpError::Stale))
}

/// What the session does when the broker reports dropped events.
pub enum LagRecovery {
    /// No baseline cursor exists, so the backlog cannot be paged: tell
    /// the client to take a REST bulk snapshot and close.
    ForceBulkSync,
    /// Wait for the next broker event to learn the fresh target, then
    /// recover from `prev` by `plan_catch_up`.
    AwaitTarget { prev: i64 },
}

/// Decides the first step of lag recovery: without a baseline cursor the
/// session closes toward a bulk sync; with one it waits to learn the
/// target sequence.
pub fn on_broker_lag(state: &SessionState) -> (r: LagRecovery)
    ensures
        match state.last_sent_seq {
            None => r is ForceBulkSync,
            Some(p) => (r matches LagRecovery::AwaitTarget { prev } && prev == p),
        },
{
    match state.last_sent_seq {
        None => LagRecovery::ForceBulkSync,
        Some(prev) => LagRecovery::AwaitTarget { prev },
    }
}

/// What the lag and gap recovery path decides once it learns the fresh
/// target sequence.
pub enum CatchUpPlan {
    /// The target was already sent: re-enter the live phase directly.
    AlreadyCaughtUp,
    /// The backlog exceeds the bulk-sync threshold: tell the client to
    /// take a REST bulk snapshot and close.
    BulkSyncRequired,
    /// Page the backlog from the database up to `target`.
    Fetch { target: i64 },
}

/// Decides how to recover once a fresh target sequence is known: nothing
/// to do when the target was already sent, a database catch-up for a
/// short backlog, and a forced bulk sync when the backlog exceeds the
/// threshold (clamped to at least 1).
pub fn plan_catch_up(last_seq: i64, target_seq: i64, bulk_limit: i64) -> (r: CatchUpPlan)
    requires
        last_seq >= 0,
    ensures
        target_seq <= last_seq ==> r is AlreadyCaughtUp,
        ({
            let limit = if bulk_limit < 1 {
                1
            } else {
                bulk_limit as int
            };
            &&& (target_seq > last_seq && target_seq - last_seq > limit ==> r is BulkSyncRequired)
            &&& (target_seq > last_seq && target_seq - last_seq <= limit ==> (r matches
                CatchUpPlan::Fetch { target } && target == target_seq))
        }),
{
    if target_seq <= last_seq {
        return CatchUpPlan::AlreadyCaughtUp;
    }
    let limit = if bulk_limit < 1 {
        1
    } else {
        bulk_limit
    };
    let diff = target_seq - last_seq;
    if diff > limit {
        CatchUpPlan::BulkSyncRequired
    } else {
        CatchUpPlan::Fetch { target: target_seq }
    }
}


/// Why a refreshed token was rejected.
#[allow(inconsistent_fields)]
pub enum AuthRefreshError {
    /// The identity verifier refused the token; carries its message.
    Verify(String),
    /// The token belongs to a different user than this session.
    UserMismatch { expected: String, received: String },
    /// The token belongs to a different organization than this session.
    OrgMismatch { expected: String, received: Option<String> },
}

/// Why the periodic auth check closes the session.
pub enum AuthVerifyError {
    /// A refreshed token was rejected.
    Refresh(AuthRefreshError),
    /// The latest identity is past its expiry (plus grace).
    Expired(ClerkIdentity),
}

/// Per-connection authentication state: the latest verified identity and
/// any client-pushed token awaiting verification.
pub struct WsAuthState {
    pub expected_user_id: String,
    pub expected_org_id: String,
    pub latest_identity: ClerkIdentity,
    pub expiry_grace: i64,
    pub pending_token: Option<String>,
}

/// The identity names this session's user and organization.
pub open spec fn identity_matches(
    identity: ClerkIdentity,
    expected_user_id: Seq<char>,
    expected_org_id: Seq<char>,
) -> bool {
    &&& identity.user_id@ == expected_user_id
    &&& match identity.org_id {
        Some(o) => o@ == expected_org_id,
        None => false,
    }
}

impl WsAuthState {
    /// Starts from the identity the connection was opened with.
    pub fn new(
        expected_user_id: String,
        expected_org_id: String,
        initial_identity: ClerkIdentity,
        expiry_grace: i64,
    ) -> (r: Self)
        ensures
            r.expected_user_id == expected_user_id,
            r.expected_org_id == expected_org_id,
            r.latest_identity == initial_identity,
            r.expiry_grace == expiry_grace,
            r.pending_token is None,
    {
        WsAuthState {
            expected_user_id,
            expected_org_id,
            latest_identity: initial_identity,
            expiry_grace,
            pending_token: None,
        }
    }

    /// Remembers a client-pushed token for the next auth tick.
    pub fn store_token(&mut self, token: String)
        ensures
            final(self).pending_token == Some(token),
            final(self).expected_user_id == old(self).expected_user_id,
            final(self).expected_org_id == old(self).expected_org_id,
            final(self).latest_identity == old(self).latest_identity,
            final(self).expiry_grace == old(self).expiry_grace,
    {
        self.pending_token = Some(token);
    }

    /// Handles one inbound client message: acknowledgements are advisory
    /// (currently a no-op), a pushed token is stored for the next tick.
    pub fn on_client_message(&mut self, msg: ClientMessage)
        ensures
            final(self).expected_user_id == old(self).expected_user_id,
            final(self).expected_org_id == old(self).expected_org_id,
            final(self).latest_identity == old(self).latest_identity,
            final(self).expiry_grace == old(self).expiry_grace,
            match msg {
                ClientMessage::Ack { cursor } => *final(self) == *old(self),
                ClientMessage::AuthToken { token } => final(self).pending_token == Some(token),
            },
    {
        match msg {
            ClientMessage::Ack { cursor: _ } => {},
            ClientMessage::AuthToken { token } => {
                self.store_token(token);
            },
        }
    }

    /// Hands out the pending token, if any, for the outside verifier.
    pub fn take_pending(&mut self) -> (r: Option<String>)
        ensures
            r == old(self).pending_token,
            final(self).pending_token is None,
            final(self).expected_user_id == old(self).expected_user_id,
            final(self).expected_org_id == old(self).expected_org_id,
            final(self).latest_identity == old(self).latest_identity,
            final(self).expiry_grace == old(self).expiry_grace,
    {
        let r = self.pending_token.take();
        r
    }

    /// The latest identity is past its expiry plus the grace period.
    pub open spec fn spec_is_expired(self, now: i64) -> bool {
        now > self.latest_identity.expires_at + self.expiry_grace
    }

    /// Whether the latest identity has expired at `now`, grace included.
    pub fn is_expired(&self, now: i64) -> (r: bool)
        ensures
            r == self.spec_is_expired(now),
    {
        (now as i128) > (self.latest_identity.expires_at as i128) + (self.expiry_grace as i128)
    }

    /// Accepts a freshly verified identity only when it names this
    /// session's user and organization; a mismatch is rejected and the
    /// previous identity kept.
    pub fn accept_identity(&mut self, identity: ClerkIdentity) -> (r: Result<
        (),
        AuthRefreshError,
    >)
        ensures
            final(self).expected_user_id == old(self).expected_user_id,
            final(self).expected_org_id == old(self).expected_org_id,
            final(self).expiry_grace == old(self).expiry_grace,
            final(self).pending_token == old(self).pending_token,
            r is Ok <==> identity_matches(
                identity,
                old(self).expected_user_id@,
                old(self).expected_org_id@,
            ),
            r is Ok ==> final(self).latest_identity == identity,
            r is Err ==> final(self).latest_identity == old(self).latest_identity,
            identity.user_id@ != old(self).expected_user_id@ ==> (r matches Err(
                AuthRefreshError::UserMismatch { expected, received },
            ) && expected@ == old(self).expected_user_id@ && received@ == identity.user_id@),
            identity.user_id@ == old(self).expected_user_id@ && !identity_matches(
                identity,
                old(self).expected_user_id@,
                old(self).expected_org_id@,
            ) ==> (r matches Err(AuthRefreshError::OrgMismatch { expected, received })
                && expected@ == old(self).expected_org_id@ && received == identity.org_id),
    {
        if !(identity.user_id == self.expected_user_id) {
            return Err(
                AuthRefreshError::UserMismatch {
                    expected: self.expected_user_id.clone(),
                    received: identity.user_id,
                },
            );
        }
        let org_matches_expected = match &identity.org_id {
            Some(o) => *o == self.expected_org_id,
            None => false,
        };
        if !org_matches_expected {
            return Err(
                AuthRefreshError::OrgMismatch {
                    expected: self.expected_org_id.clone(),
                    received: identity.org_id,
                },
            );
        }
        self.latest_identity = identity;
        Ok(())
    }

    /// One periodic auth check, fed the outside verifier's outcome on the
    /// pending token (`None` when no token was pending): a verifier
    /// refusal or mismatched identity closes the session, as does an
    /// expired identity; otherwise the session stays open.
    pub fn auth_tick(&mut self, verification: Option<Result<ClerkIdentity, String>>, now: i64)
        -> (r: Result<(), AuthVerifyError>)
        ensures
            final(self).expected_user_id == old(self).expected_user_id,
            final(self).expected_org_id == old(self).expected_org_id,
            final(self).expiry_grace == old(self).expiry_grace,
            final(self).pending_token == old(self).pending_token,
            match verification {
                Some(Ok(identity)) => {
                    &&& (identity_matches(
                        identity,
                        old(self).expected_user_id@,
                        old(self).expected_org_id@,
                    ) ==> final(self).latest_identity == identity && (r is Ok
                        <==> !final(self).spec_is_expired(now)))
                    &&& (!identity_matches(
                        identity,
                        old(self).expected_user_id@,
                        old(self).expected_org_id@,
                    ) ==> (r matches Err(AuthVerifyError::Refresh(e)))
                        && final(self).latest_identity == old(self).latest_identity)
                },
                Some(Err(msg)) => (r matches Err(AuthVerifyError::Refresh(
                    AuthRefreshError::Verify(m),
                )) && m@ == msg@) && final(self).latest_identity == old(self).latest_identity,
                None => {
                    &&& final(self).latest_identity == old(self).latest_identity
                    &&& (r is Ok <==> !old(self).spec_is_expired(now))
                    &&& (old(self).spec_is_expired(now) ==> (r matches Err(
                        AuthVerifyError::Expired(id),
                    ) && id == old(self).latest_identity))
                },
            },
    {
        match verification {
            Some(Ok(identity)) => {
                if let Err(e) = self.accept_identity(identity) {
                    return Err(AuthVerifyError::Refresh(e));
                }
            },
            Some(Err(msg)) => {
                return Err(AuthVerifyError::Refresh(AuthRefreshError::Verify(msg)));
            },
            None => {},
        }
        if self.is_expired(now) {
            return Err(AuthVerifyError::Expired(self.latest_identity.dup()));
        }
        Ok(())
    }
}

} // verus!
