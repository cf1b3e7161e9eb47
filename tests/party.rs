use finality_party::aggregator::{AggregatorEvent, BlockHash, BlockSignatureAggregator, NextHash};
use finality_party::config::{create_aleph_config, UnitCreationDelay};
use finality_party::party::{
    early_start_index, manager_result, node_index, AuthorityId, BackupAction, CatchUp,
    EarlySkipStep, ManagerError, NextSessionAction, RoleAction, SessionManagerError, SessionPhase,
    SessionRun, Teardown, EARLY_SKIP_ATTEMPTS,
};
use finality_party::session::{SessionId, SessionPeriod};
use finality_party::supervisor::{SubtaskKind, Subtasks, Verdict};

fn authority(n: u8) -> AuthorityId {
    AuthorityId([n; 32])
}

fn block_hash(height: u32) -> BlockHash {
    let mut bytes = [0u8; 32];
    bytes[..4].copy_from_slice(&height.to_le_bytes());
    BlockHash(bytes)
}

#[test]
fn session_five_end_to_end() {
    let period = SessionPeriod(900);
    let mut run = SessionRun::start(SessionId(5), period, 4500, EARLY_SKIP_ATTEMPTS);
    assert_eq!(run.backup_to_remove(), Some(SessionId(4)));
    assert_eq!(run.last_block(), 5399);
    assert_eq!(run.phase(), SessionPhase::AwaitingAuthorities);

    let authorities: Vec<AuthorityId> = (0..4u8).map(authority).collect();
    let ours = vec![authority(9), authority(2)];
    let node = node_index(&authorities, &ours);
    assert_eq!(node, Some(2));
    assert_eq!(run.on_authorities(node), RoleAction::RotateBackup(2));
    assert_eq!(run.on_backup(true), BackupAction::SpawnAuthorityTask(2));
    assert_eq!(run.phase(), SessionPhase::Running);
    assert!(run.has_authority_task());

    let config = create_aleph_config(authorities.len(), 2, SessionId(5), UnitCreationDelay(300));
    assert_eq!(config.n_members, 4);
    assert_eq!(config.node_id, 2);
    let mut subtasks = Subtasks::new();
    assert_eq!(subtasks.verdict(), Verdict::Pending);

    let mut aggregator = BlockSignatureAggregator::<u64>::new();
    for height in 4501..=4503u32 {
        assert!(aggregator.start_aggregation(block_hash(height)));
    }
    for height in [4503u32, 4501, 4502] {
        aggregator.handle_event(AggregatorEvent::<u64, Vec<u8>>::Multisigned(
            block_hash(height),
            height as u64,
        ));
    }
    let mut emitted = Vec::new();
    while let NextHash::Ready(h, s) = aggregator.poll_next() {
        emitted.push((h, s));
    }
    assert_eq!(
        emitted,
        vec![
            (block_hash(4501), 4501),
            (block_hash(4502), 4502),
            (block_hash(4503), 4503)
        ]
    );

    assert!(!run.on_status_check(5398));
    assert_eq!(run.phase(), SessionPhase::Running);
    assert!(run.on_status_check(5399));
    assert_eq!(run.phase(), SessionPhase::Terminating);
    assert_eq!(
        run.terminate(),
        Teardown { stop_authority_task: true, stop_session: SessionId(5) }
    );
    assert_eq!(run.phase(), SessionPhase::Terminated);
    subtasks.fire_exit();
    for k in [
        SubtaskKind::Member,
        SubtaskKind::Aggregator,
        SubtaskKind::ChainTracker,
        SubtaskKind::DataStore,
    ] {
        subtasks.finished(k, true);
    }
    assert_eq!(subtasks.verdict(), Verdict::Succeeded);
}

#[test]
fn early_skip_spawns_nothing() {
    let period = SessionPeriod(900);
    let mut run = SessionRun::start(SessionId(5), period, 5399, EARLY_SKIP_ATTEMPTS);
    assert_eq!(run.phase(), SessionPhase::EarlySkip);
    for _ in 0..3 {
        assert_eq!(run.early_skip_poll(5000), EarlySkipStep::Retry);
    }
    assert_eq!(run.early_skip_poll(5399), EarlySkipStep::Skip);
    assert_eq!(run.phase(), SessionPhase::Skipped);
    assert!(!run.has_authority_task());
}

#[test]
fn early_skip_gives_up_after_ten_reads() {
    let mut run = SessionRun::start(SessionId(5), SessionPeriod(900), 6000, EARLY_SKIP_ATTEMPTS);
    for _ in 0..9 {
        assert_eq!(run.early_skip_poll(5398), EarlySkipStep::Retry);
    }
    assert_eq!(run.early_skip_poll(5398), EarlySkipStep::GiveUp);
    assert_eq!(run.phase(), SessionPhase::AwaitingAuthorities);
}

#[test]
fn no_early_skip_when_best_is_behind() {
    let run = SessionRun::start(SessionId(5), SessionPeriod(900), 5398, EARLY_SKIP_ATTEMPTS);
    assert_eq!(run.phase(), SessionPhase::AwaitingAuthorities);
    let run = SessionRun::start(SessionId(5), SessionPeriod(900), 9000, 0);
    assert_eq!(run.phase(), SessionPhase::AwaitingAuthorities);
}

#[test]
fn first_session_removes_no_backup() {
    let run = SessionRun::start(SessionId(0), SessionPeriod(900), 0, EARLY_SKIP_ATTEMPTS);
    assert_eq!(run.backup_to_remove(), None);
    assert_eq!(run.last_block(), 899);
    assert_eq!(run.next_session_id(), SessionId(1));
}

#[test]
fn non_authority_session() {
    let mut run = SessionRun::start(SessionId(3), SessionPeriod(10), 0, EARLY_SKIP_ATTEMPTS);
    let authorities = vec![authority(1), authority(2)];
    let node = node_index(&authorities, &vec![authority(7)]);
    assert_eq!(node, None);
    assert_eq!(run.on_authorities(node), RoleAction::StartNonValidator(SessionId(3)));
    assert_eq!(run.phase(), SessionPhase::Running);
    assert!(!run.has_authority_task());
    assert_eq!(run.on_next_session_subscription_error(), SessionId(4));
    assert_eq!(
        run.on_next_session_authorities(Some(0)),
        NextSessionAction::EarlyStartValidator(SessionId(4), 0)
    );
    assert!(run.on_status_check(39));
    assert_eq!(
        run.terminate(),
        Teardown { stop_authority_task: false, stop_session: SessionId(3) }
    );
}

#[test]
fn next_session_as_non_validator() {
    let mut run = SessionRun::start(SessionId(3), SessionPeriod(10), 0, EARLY_SKIP_ATTEMPTS);
    run.on_authorities(None);
    assert_eq!(
        run.on_next_session_authorities(None),
        NextSessionAction::StartNonValidator(SessionId(4))
    );
}

#[test]
fn backup_failure_aborts_session() {
    let mut run = SessionRun::start(SessionId(2), SessionPeriod(10), 0, EARLY_SKIP_ATTEMPTS);
    assert_eq!(run.on_authorities(Some(1)), RoleAction::RotateBackup(1));
    assert_eq!(run.on_backup(false), BackupAction::Abort);
    assert_eq!(run.phase(), SessionPhase::Aborted);
    assert!(!run.has_authority_task());
}

#[test]
fn stopped_authority_task_downgrades_session() {
    let mut run = SessionRun::start(SessionId(2), SessionPeriod(10), 0, EARLY_SKIP_ATTEMPTS);
    run.on_authorities(Some(0));
    run.on_backup(true);
    assert!(run.has_authority_task());
    run.on_authority_task_stopped();
    assert!(!run.has_authority_task());
    assert_eq!(run.phase(), SessionPhase::Running);
    assert!(run.on_status_check(100));
    assert_eq!(
        run.terminate(),
        Teardown { stop_authority_task: false, stop_session: SessionId(2) }
    );
}

#[test]
fn node_index_takes_first_matching_authority() {
    let authorities = vec![authority(5), authority(6), authority(7), authority(6)];
    assert_eq!(node_index(&authorities, &vec![authority(7), authority(6)]), Some(1));
    assert_eq!(node_index(&authorities, &vec![]), None);
    assert_eq!(node_index(&vec![], &vec![authority(6)]), None);
}

#[test]
fn catch_up_waits_while_syncing_and_moving() {
    let period = SessionPeriod(900);
    let mut c = CatchUp::new(100);
    assert_eq!(c.decide(true, period), None);
    c.observe(2000);
    assert_eq!(c.decide(true, period), None);
    c.observe(2000);
    assert_eq!(c.decide(true, period), Some(SessionId(2)));
    let c = CatchUp::new(4501);
    assert_eq!(c.decide(false, period), Some(SessionId(5)));
}

#[test]
fn session_manager_errors() {
    assert_eq!(early_start_index(Some(3)), Ok(3));
    assert_eq!(early_start_index(None), Err(SessionManagerError::NotAuthority));
    assert!(SessionManagerError::NotAuthority.is_expected());
    assert!(!SessionManagerError::ManagerError(ManagerError::NotAuthority).is_expected());
    assert_eq!(manager_result(Ok(())), Ok(()));
    assert_eq!(
        manager_result(Err(ManagerError::NetworkReceiveError)),
        Err(SessionManagerError::ManagerError(ManagerError::NetworkReceiveError))
    );
}
