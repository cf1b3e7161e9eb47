//! The session lifecycle: catching up once, then, session after session,
//! deciding the node's role, running or skipping the session, preparing the
//! next session's network early, and tearing the session down.
//!
//! Each step is a decision from the current state and what was observed to
//! the next state and the action to perform; performing the actions (timers,
//! subscriptions, spawning, network calls) is left to the caller.
use vstd::prelude::*;

use crate::bytes::equal_32;
use crate::session::{
    last_block, last_block_of_session, session_fits, session_id_from_block_num, session_of,
    SessionId, SessionPeriod,
};

verus! {

/// Milliseconds between two looks at the chain while catching up.
pub const CATCH_UP_POLL_MS: u64 = 500;

/// How often the finalized height is read before giving up an early skip.
pub const EARLY_SKIP_ATTEMPTS: u32 = 10;

/// Milliseconds between two reads of an early-skip attempt.
pub const EARLY_SKIP_INTERVAL_MS: u64 = 200;

/// Milliseconds between two checks of whether the session has ended.
pub const SESSION_STATUS_CHECK_PERIOD_MS: u64 = 1000;

/// Public key of an authority.
#[derive(Clone, Copy, Debug, PartialEq, Eq, Hash)]
pub struct AuthorityId(pub [u8; 32]);

/// `keys` holds `id`.
pub open spec fn holds_key(keys: Seq<AuthorityId>, id: AuthorityId) -> bool {
    keys.contains(id)
}

/// Position of this node in `authorities`: the first authority whose key is
/// among `our_keys`, or `None` when there is none.
pub fn node_index(authorities: &Vec<AuthorityId>, our_keys: &Vec<AuthorityId>) -> (r: Option<usize>)
    ensures
        match r {
            Some(i) => {
                &&& i < authorities@.len()
                &&& holds_key(our_keys@, authorities@[i as int])
                &&& forall|j: int| 0 <= j < i ==> !holds_key(our_keys@, #[trigger] authorities@[j])
            },
            None => forall|j: int|
                0 <= j < authorities@.len() ==> !holds_key(our_keys@, #[trigger] authorities@[j]),
        },
{
    let mut i: usize = 0;
    while i < authorities.len()
        invariant
            i <= authorities@.len(),
            forall|j: int| 0 <= j < i ==> !holds_key(our_keys@, #[trigger] authorities@[j]),
        decreases authorities@.len() - i,
    {
        if holds(our_keys, &authorities[i]) {
            return Some(i);
        }
        i = i + 1;
    }
    None
}

fn holds(keys: &Vec<AuthorityId>, id: &AuthorityId) -> (r: bool)
    ensures
        r == holds_key(keys@, *id),
{
    let mut i: usize = 0;
    while i < keys.len()
        invariant
            i <= keys@.len(),
            forall|j: int| 0 <= j < i ==> keys@[j] != *id,
        decreases keys@.len() - i,
    {
        if equal_32(&keys[i].0, &id.0) {
            proof {
                assert(keys@[i as int] == *id);
            }
            return true;
        }
        i = i + 1;
    }
    false
}

/// Errors of the network session manager.
#[derive(Clone, Copy, Debug, PartialEq, Eq, Structural)]
pub enum ManagerError {
    NotAuthority,
    NetworkReceiveError,
}

/// Errors of the node's session manager.
#[derive(Clone, Copy, Debug, PartialEq, Eq, Structural)]
pub enum SessionManagerError {
    /// The node holds no key of the session's authorities.
    NotAuthority,
    /// The network session manager refused.
    ManagerError(ManagerError),
}

impl SessionManagerError {
    /// Whether the error is an expected outcome rather than an anomaly: the
    /// node is simply not an authority of the session.
    pub fn is_expected(&self) -> (r: bool)
        ensures
            r == (*self is NotAuthority),
    {
        match self {
            SessionManagerError::NotAuthority => true,
            SessionManagerError::ManagerError(_) => false,
        }
    }
}

/// The node index with which to start a validator session early, or
/// `NotAuthority` when the node has no index in the session.
pub fn early_start_index(node_id: Option<usize>) -> (r: Result<usize, SessionManagerError>)
    ensures
        match node_id {
            Some(i) => r == Ok::<usize, SessionManagerError>(i),
            None => r == Err::<usize, SessionManagerError>(SessionManagerError::NotAuthority),
        },
{
    match node_id {
        Some(i) => Ok(i),
        None => Err(SessionManagerError::NotAuthority),
    }
}

/// Passes a network manager's error on as the session manager's.
pub fn manager_result(result: Result<(), ManagerError>) -> (r: Result<(), SessionManagerError>)
    ensures
        match result {
            Ok(()) => r is Ok,
            Err(e) => r == Err::<(), SessionManagerError>(SessionManagerError::ManagerError(e)),
        },
{
    match result {
        Ok(()) => Ok(()),
        Err(e) => Err(SessionManagerError::ManagerError(e)),
    }
}

/// Catching up before the first session: wait while the node is still
/// bulk-syncing and its finalized height still moves.
pub struct CatchUp {
    pub finalized: u32,
    pub previous: Option<u32>,
}

impl CatchUp {
    pub fn new(finalized: u32) -> (r: Self)
        ensures
            r.finalized == finalized,
            r.previous is None,
    {
        CatchUp { finalized, previous: None }
    }

    /// `None`: look again after `CATCH_UP_POLL_MS`. `Some(s)`: syncing has
    /// settled and the sessions run from `s`, the session of the finalized
    /// height.
    pub fn decide(&self, is_major_syncing: bool, period: SessionPeriod) -> (r: Option<SessionId>)
        requires
            period.0 > 0,
        ensures
            is_major_syncing && self.previous != Some(self.finalized) ==> r is None,
            !(is_major_syncing && self.previous != Some(self.finalized)) ==> (r matches Some(s)
                && s.0 == session_of(self.finalized as int, period.0 as int)),
    {
        let settled = match self.previous {
            Some(p) => p == self.finalized,
            None => false,
        };
        if is_major_syncing && !settled {
            None
        } else {
            Some(session_id_from_block_num(self.finalized, period))
        }
    }

    /// Records a new reading of the finalized height.
    pub fn observe(&mut self, finalized: u32)
        ensures
            final(self).previous == Some(old(self).finalized),
            final(self).finalized == finalized,
    {
        self.previous = Some(self.finalized);
        self.finalized = finalized;
    }
}

/// Where a session stands.
#[derive(Clone, Copy, Debug, PartialEq, Eq, Structural)]
pub enum SessionPhase {
    /// Reading the finalized height in the hope of skipping the session.
    EarlySkip,
    /// Waiting for the session's authorities to be published.
    AwaitingAuthorities,
    /// The node is an authority; its backup slot is being set up.
    AwaitingBackup,
    /// The session runs until its last block is finalized.
    Running,
    /// The last block is finalized: the session is being torn down.
    Terminating,
    /// The session was torn down.
    Terminated,
    /// The session's last block was finalized already; nothing was started.
    Skipped,
    /// The backup slot could not be set up; the session is not run.
    Aborted,
}

/// Outcome of one early-skip read.
#[derive(Clone, Copy, Debug, PartialEq, Eq, Structural)]
pub enum EarlySkipStep {
    /// The session's last block is finalized: skip the session.
    Skip,
    /// Read again after `EARLY_SKIP_INTERVAL_MS`.
    Retry,
    /// Give up skipping: wait for the session's authorities.
    GiveUp,
}

/// What to do once the session's authorities are known.
#[derive(Clone, Copy, Debug, PartialEq, Eq, Structural)]
pub enum RoleAction {
    /// The node is authority `node_id`: set up the session's backup slot.
    RotateBackup(usize),
    /// The node is not an authority: run the session listening only.
    StartNonValidator(SessionId),
}

/// What to do once the backup slot is set up, or failed to be.
#[derive(Clone, Copy, Debug, PartialEq, Eq, Structural)]
pub enum BackupAction {
    /// Spawn the authority task as authority `node_id`.
    SpawnAuthorityTask(usize),
    /// Do not run the session.
    Abort,
}

/// How to prepare the next session's network once its authorities are known.
#[derive(Clone, Copy, Debug, PartialEq, Eq, Structural)]
pub enum NextSessionAction {
    EarlyStartValidator(SessionId, usize),
    StartNonValidator(SessionId),
}

/// What tearing a session down takes.
#[derive(Clone, Copy, Debug, PartialEq, Eq, Structural)]
pub struct Teardown {
    /// Stop the authority task and wait for it.
    pub stop_authority_task: bool,
    /// Stop the network session of this session.
    pub stop_session: SessionId,
}

/// The state of one session as plain values.
pub struct SessionRunView {
    pub session_id: u32,
    pub last_block: u32,
    pub phase: SessionPhase,
    pub attempts: u32,
    pub max_attempts: u32,
    pub node_id: Option<usize>,
    pub authority_task: bool,
    pub next_session_pending: bool,
    pub spawned: bool,
}

/// The state in which session `session_id` starts, given the best height.
pub open spec fn start_view(
    session_id: u32,
    period: u32,
    best_block: u32,
    max_attempts: u32,
) -> SessionRunView {
    let last = last_block(session_id as int, period as int) as u32;
    SessionRunView {
        session_id,
        last_block: last,
        phase: if best_block >= last && max_attempts > 0 {
            SessionPhase::EarlySkip
        } else {
            SessionPhase::AwaitingAuthorities
        },
        attempts: 0,
        max_attempts,
        node_id: None,
        authority_task: false,
        next_session_pending: false,
        spawned: false,
    }
}

/// The outcome of one early-skip read of the finalized height.
pub open spec fn early_skip_outcome(v: SessionRunView, finalized: u32) -> EarlySkipStep {
    if finalized >= v.last_block {
        EarlySkipStep::Skip
    } else if v.attempts + 1 < v.max_attempts {
        EarlySkipStep::Retry
    } else {
        EarlySkipStep::GiveUp
    }
}

/// The state after one early-skip read of the finalized height.
pub open spec fn after_early_skip(v: SessionRunView, finalized: u32) -> SessionRunView {
    let attempts = (v.attempts + 1) as u32;
    match early_skip_outcome(v, finalized) {
        EarlySkipStep::Skip => SessionRunView { phase: SessionPhase::Skipped, attempts, ..v },
        EarlySkipStep::Retry => SessionRunView { attempts, ..v },
        EarlySkipStep::GiveUp => SessionRunView {
            phase: SessionPhase::AwaitingAuthorities,
            attempts,
            ..v
        },
    }
}

/// The state after early-skip reads `readings`, in order, while the session
/// is still trying to skip.
pub open spec fn after_early_skips(v: SessionRunView, readings: Seq<u32>) -> SessionRunView
    decreases readings.len(),
{
    if readings.len() == 0 || v.phase != SessionPhase::EarlySkip {
        v
    } else {
        after_early_skips(after_early_skip(v, readings[0]), readings.drop_first())
    }
}

proof fn lemma_skip_within(v: SessionRunView, readings: Seq<u32>, k: int)
    requires
        v.phase == SessionPhase::EarlySkip,
        !v.spawned,
        0 <= k < readings.len(),
        v.attempts + k < v.max_attempts,
        readings[k] >= v.last_block,
    ensures
        after_early_skips(v, readings).phase == SessionPhase::Skipped,
        !after_early_skips(v, readings).spawned,
    decreases readings.len(),
{
    let w = after_early_skip(v, readings[0]);
    let rest = readings.drop_first();
    if readings[0] >= v.last_block {
        assert(w.phase == SessionPhase::Skipped);
        if rest.len() > 0 {
            assert(after_early_skips(w, rest) == w);
        }
    } else {
        assert(k >= 1);
        assert(rest[k - 1] == readings[k]);
        lemma_skip_within(w, rest, k - 1);
    }
}

/// When the best height has reached the session's last block as the session
/// starts, and the finalized height reaches it at one of the first
/// `max_attempts` reads, the session is skipped and spawns no authority
/// task.
pub proof fn lemma_early_skip_spawns_nothing(
    session_id: u32,
    period: u32,
    best_block: u32,
    max_attempts: u32,
    readings: Seq<u32>,
    k: int,
)
    requires
        period > 0,
        session_fits(session_id as int, period as int),
        best_block >= last_block(session_id as int, period as int),
        0 <= k < readings.len(),
        k < max_attempts,
        readings[k] >= last_block(session_id as int, period as int),
    ensures
        after_early_skips(start_view(session_id, period, best_block, max_attempts), readings).phase
            == SessionPhase::Skipped,
        !after_early_skips(start_view(session_id, period, best_block, max_attempts), readings).spawned,
{
    let s = session_id as int;
    let l = period as int;
    assert((s + 1) * l >= 1) by (nonlinear_arith)
        requires
            s >= 0,
            l >= 1,
    ;
    lemma_skip_within(start_view(session_id, period, best_block, max_attempts), readings, k);
}

/// One session, from its start to its teardown.
pub struct SessionRun {
    session_id: u32,
    last_block: u32,
    phase: SessionPhase,
    attempts: u32,
    max_attempts: u32,
    node_id: Option<usize>,
    authority_task: bool,
    next_session_pending: bool,
    spawned: bool,
}

impl View for SessionRun {
    type V = SessionRunView;

    closed spec fn view(&self) -> SessionRunView {
        SessionRunView {
            session_id: self.session_id,
            last_block: self.last_block,
            phase: self.phase,
            attempts: self.attempts,
            max_attempts: self.max_attempts,
            node_id: self.node_id,
            authority_task: self.authority_task,
            next_session_pending: self.next_session_pending,
            spawned: self.spawned,
        }
    }
}

impl SessionRun {
    /// Starts session `session_id`. While the chain's best height
    /// `best_block` has reached the session's last block, the session first
    /// tries to skip: it reads the finalized height up to `max_attempts`
    /// times, the first time at once.
    pub fn start(session_id: SessionId, period: SessionPeriod, best_block: u32, max_attempts: u32) -> (r: Self)
        requires
            period.0 > 0,
            session_id.0 < u32::MAX,
            session_fits(session_id.0 as int, period.0 as int),
        ensures
            r@ == start_view(session_id.0, period.0, best_block, max_attempts),
    {
        let last = last_block_of_session(session_id, period);
        let phase = if best_block >= last && max_attempts > 0 {
            SessionPhase::EarlySkip
        } else {
            SessionPhase::AwaitingAuthorities
        };
        SessionRun {
            session_id: session_id.0,
            last_block: last,
            phase,
            attempts: 0,
            max_attempts,
            node_id: None,
            authority_task: false,
            next_session_pending: false,
            spawned: false,
        }
    }

    pub fn session_id(&self) -> (r: SessionId)
        ensures
            r.0 == self@.session_id,
    {
        SessionId(self.session_id)
    }

    pub fn last_block(&self) -> (r: u32)
        ensures
            r == self@.last_block,
    {
        self.last_block
    }

    pub fn phase(&self) -> (r: SessionPhase)
        ensures
            r == self@.phase,
    {
        self.phase
    }

    pub fn has_authority_task(&self) -> (r: bool)
        ensures
            r == self@.authority_task,
    {
        self.authority_task
    }

    /// The session whose backup is to be deleted in the background when this
    /// session starts: the previous one, if any.
    pub fn backup_to_remove(&self) -> (r: Option<SessionId>)
        ensures
            self@.session_id == 0 ==> r is None,
            self@.session_id > 0 ==> r == Some(SessionId((self@.session_id - 1) as u32)),
    {
        if self.session_id == 0 {
            None
        } else {
            Some(SessionId(self.session_id - 1))
        }
    }

    /// The session after this one.
    pub fn next_session_id(&self) -> (r: SessionId)
        requires
            self@.session_id < u32::MAX,
        ensures
            r.0 == self@.session_id + 1,
    {
        SessionId(self.session_id + 1)
    }

    /// One early-skip read of the finalized height.
    pub fn early_skip_poll(&mut self, finalized: u32) -> (r: EarlySkipStep)
        requires
            old(self)@.phase == SessionPhase::EarlySkip,
            old(self)@.attempts < old(self)@.max_attempts,
        ensures
            r == early_skip_outcome(old(self)@, finalized),
            final(self)@ == after_early_skip(old(self)@, finalized),
            final(self)@.phase == SessionPhase::EarlySkip ==> final(self)@.attempts
                < final(self)@.max_attempts,
    {
        self.attempts = self.attempts + 1;
        if finalized >= self.last_block {
            self.phase = SessionPhase::Skipped;
            EarlySkipStep::Skip
        } else if self.attempts < self.max_attempts {
            EarlySkipStep::Retry
        } else {
            self.phase = SessionPhase::AwaitingAuthorities;
            EarlySkipStep::GiveUp
        }
    }

    /// The session's authorities are known and `node_id` is the node's
    /// position among them, if any.
    pub fn on_authorities(&mut self, node_id: Option<usize>) -> (r: RoleAction)
        requires
            old(self)@.phase == SessionPhase::AwaitingAuthorities,
            old(self)@.session_id < u32::MAX,
        ensures
            match node_id {
                Some(i) => {
                    &&& r == RoleAction::RotateBackup(i)
                    &&& final(self)@ == (SessionRunView {
                        phase: SessionPhase::AwaitingBackup,
                        node_id: Some(i),
                        ..old(self)@
                    })
                },
                None => {
                    &&& r == RoleAction::StartNonValidator(SessionId(old(self)@.session_id))
                    &&& final(self)@ == (SessionRunView {
                        phase: SessionPhase::Running,
                        next_session_pending: true,
                        ..old(self)@
                    })
                },
            },
    {
        match node_id {
            Some(i) => {
                self.node_id = Some(i);
                self.phase = SessionPhase::AwaitingBackup;
                RoleAction::RotateBackup(i)
            },
            None => {
                self.phase = SessionPhase::Running;
                self.next_session_pending = true;
                RoleAction::StartNonValidator(SessionId(self.session_id))
            },
        }
    }

    /// The backup slot was set up when `ok`, or failed to be.
    pub fn on_backup(&mut self, ok: bool) -> (r: BackupAction)
        requires
            old(self)@.phase == SessionPhase::AwaitingBackup,
            old(self)@.node_id is Some,
        ensures
            ok ==> r == BackupAction::SpawnAuthorityTask(old(self)@.node_id->0) && final(self)@
                == (SessionRunView {
                phase: SessionPhase::Running,
                authority_task: true,
                spawned: true,
                next_session_pending: true,
                ..old(self)@
            }),
            !ok ==> r == BackupAction::Abort && final(self)@ == (SessionRunView {
                phase: SessionPhase::Aborted,
                ..old(self)@
            }),
    {
        if ok {
            self.phase = SessionPhase::Running;
            self.authority_task = true;
            self.spawned = true;
            self.next_session_pending = true;
            match self.node_id {
                Some(i) => BackupAction::SpawnAuthorityTask(i),
                None => BackupAction::Abort,
            }
        } else {
            self.phase = SessionPhase::Aborted;
            BackupAction::Abort
        }
    }

    /// The periodic check read the finalized height `finalized`. `true`:
    /// the session's last block is finalized and the session is being torn
    /// down; `false`: check again after `SESSION_STATUS_CHECK_PERIOD_MS`.
    pub fn on_status_check(&mut self, finalized: u32) -> (r: bool)
        requires
            old(self)@.phase == SessionPhase::Running,
        ensures
            r == (finalized >= old(self)@.last_block),
            r ==> final(self)@ == (SessionRunView {
                phase: SessionPhase::Terminating,
                ..old(self)@
            }),
            !r ==> final(self)@ == old(self)@,
    {
        if finalized >= self.last_block {
            self.phase = SessionPhase::Terminating;
            true
        } else {
            false
        }
    }

    /// The next session's authorities were published and `node_id` is the
    /// node's position among them, if any: its network is started now.
    pub fn on_next_session_authorities(&mut self, node_id: Option<usize>) -> (r: NextSessionAction)
        requires
            old(self)@.phase == SessionPhase::Running,
            old(self)@.next_session_pending,
            old(self)@.session_id < u32::MAX,
        ensures
            final(self)@ == (SessionRunView { next_session_pending: false, ..old(self)@ }),
            match node_id {
                Some(i) => r == NextSessionAction::EarlyStartValidator(
                    SessionId((old(self)@.session_id + 1) as u32),
                    i,
                ),
                None => r == NextSessionAction::StartNonValidator(
                    SessionId((old(self)@.session_id + 1) as u32),
                ),
            },
    {
        self.next_session_pending = false;
        let next = SessionId(self.session_id + 1);
        match node_id {
            Some(i) => NextSessionAction::EarlyStartValidator(next, i),
            None => NextSessionAction::StartNonValidator(next),
        }
    }

    /// The subscription to the next session's authorities failed: subscribe
    /// again to the returned session.
    pub fn on_next_session_subscription_error(&self) -> (r: SessionId)
        requires
            self@.phase == SessionPhase::Running,
            self@.next_session_pending,
            self@.session_id < u32::MAX,
        ensures
            r.0 == self@.session_id + 1,
    {
        SessionId(self.session_id + 1)
    }

    /// The authority task stopped before the session ended: the session goes
    /// on without it, as a non-authority, and it is not restarted.
    pub fn on_authority_task_stopped(&mut self)
        requires
            old(self)@.phase == SessionPhase::Running,
            old(self)@.authority_task,
        ensures
            final(self)@ == (SessionRunView { authority_task: false, ..old(self)@ }),
    {
        self.authority_task = false;
    }

    /// Tears the session down: the authority task, if still running, is
    /// stopped, and the session's network is stopped in any role.
    pub fn terminate(&mut self) -> (r: Teardown)
        requires
            old(self)@.phase == SessionPhase::Terminating,
        ensures
            r == (Teardown {
                stop_authority_task: old(self)@.authority_task,
                stop_session: SessionId(old(self)@.session_id),
            }),
            final(self)@ == (SessionRunView {
                phase: SessionPhase::Terminated,
                authority_task: false,
                ..old(self)@
            }),
    {
        let stop_authority_task = self.authority_task;
        self.authority_task = false;
        self.phase = SessionPhase::Terminated;
        Teardown { stop_authority_task, stop_session: SessionId(self.session_id) }
    }
}

} // verus!
