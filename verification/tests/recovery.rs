use shardex::error::ShardexError;
use shardex::recovery::{
    classify_exhausted_resource, disk_cleanup_outcome, initial_retry_state, next_recovery_step,
    next_retry_action, recovery_outcome, start_recovery, AttemptOutcome, ExhaustedResource,
    RecoveryEvent, RecoveryState, RecoveryTask, RetryAction, RetryState, MAX_BACKOFF_MS,
    MAX_RETRIES,
};

#[test]
fn retry_returns_success_at_once() {
    let state = initial_retry_state();
    let (next, action) = next_retry_action(state, AttemptOutcome::Succeeded);
    assert_eq!(action, RetryAction::ReturnSuccess);
    assert_eq!(next, state);
}

#[test]
fn retry_returns_permanent_failure_at_once() {
    let state = initial_retry_state();
    let (_, action) = next_retry_action(state, AttemptOutcome::PermanentFailure);
    assert_eq!(action, RetryAction::ReturnFailure);
}

#[test]
fn retry_backoff_doubles_and_gives_up_after_max_retries() {
    let mut state = initial_retry_state();
    let mut pauses = Vec::new();
    loop {
        let (next, action) = next_retry_action(state, AttemptOutcome::TransientFailure);
        match action {
            RetryAction::RetryAfterMs(ms) => pauses.push(ms),
            RetryAction::ReturnFailure => break,
            RetryAction::ReturnSuccess => panic!("no attempt succeeded"),
        }
        state = next;
    }
    assert_eq!(pauses, vec![100, 200, 400]);
    assert_eq!(state.retry_count, MAX_RETRIES);
}

#[test]
fn retry_backoff_is_capped() {
    let state = RetryState { retry_count: 0, backoff_ms: 4000 };
    let (next, action) = next_retry_action(state, AttemptOutcome::TransientFailure);
    assert_eq!(action, RetryAction::RetryAfterMs(4000));
    assert_eq!(next.backoff_ms, MAX_BACKOFF_MS);
    assert_eq!(next.retry_count, 1);
}

#[test]
fn known_resources_are_classified() {
    assert_eq!(classify_exhausted_resource("memory").unwrap(), ExhaustedResource::Memory);
    assert_eq!(classify_exhausted_resource("disk_space").unwrap(), ExhaustedResource::DiskSpace);
    assert_eq!(classify_exhausted_resource("file_handles").unwrap(), ExhaustedResource::FileHandles);
}

#[test]
fn unknown_resource_is_refused() {
    match classify_exhausted_resource("gpu") {
        Err(ShardexError::ResourceExhausted { resource, reason, .. }) => {
            assert_eq!(resource, "gpu");
            assert_eq!(reason, "Unknown resource type: gpu");
        }
        other => panic!("unexpected result: {:?}", other),
    }
}

#[test]
fn disk_cleanup_succeeds_if_anything_was_freed() {
    assert!(disk_cleanup_outcome(2, false).is_ok());
    assert!(disk_cleanup_outcome(0, true).is_ok());
    assert!(disk_cleanup_outcome(1, true).is_ok());
    match disk_cleanup_outcome(0, false) {
        Err(ShardexError::ResourceExhausted { resource, .. }) => assert_eq!(resource, "disk_space"),
        other => panic!("unexpected result: {:?}", other),
    }
}

fn step(state: RecoveryState, event: RecoveryEvent) -> (RecoveryState, RecoveryTask, Option<String>) {
    let (next, action) = next_recovery_step(state, &event);
    (next, action.task, action.issue)
}

#[test]
fn clean_recovery_visits_every_step_without_issues() {
    let (state, action) = start_recovery();
    assert_eq!(action.task, RecoveryTask::ValidateConsistency);
    let (state, task, issue) = step(state, RecoveryEvent::ConsistencyChecked(None));
    assert_eq!((task, issue), (RecoveryTask::LoadMetadata, None));
    let (state, task, _) = step(state, RecoveryEvent::MetadataLoaded { needs_recovery: true });
    assert_eq!(task, RecoveryTask::ReplayWal);
    let (state, task, _) = step(state, RecoveryEvent::WalReplayed(None));
    assert_eq!(task, RecoveryTask::ListShards);
    let (state, task, _) = step(state, RecoveryEvent::ShardsListed(2));
    assert_eq!(task, RecoveryTask::ValidateShard(0));
    let (state, task, _) = step(state, RecoveryEvent::ShardValidated { found: true, error: None });
    assert_eq!(task, RecoveryTask::ValidateShard(1));
    let (state, task, issue) = step(state, RecoveryEvent::ShardValidated { found: false, error: None });
    assert_eq!((task, issue), (RecoveryTask::Finish, None));
    assert_eq!(state, RecoveryState::Finished);
    assert_eq!(recovery_outcome(&[]), Ok(()));
}

#[test]
fn recovery_collects_issues_and_repairs_shards() {
    let mut issues = Vec::new();
    let (state, _) = start_recovery();
    let (state, _, issue) = step(state, RecoveryEvent::ConsistencyChecked(Some("bad".to_string())));
    issues.extend(issue);
    let (state, task, issue) = step(state, RecoveryEvent::MetadataUnreadable("gone".to_string()));
    assert_eq!(task, RecoveryTask::ListShards);
    issues.extend(issue);
    let (state, _, _) = step(state, RecoveryEvent::ShardsListed(2));
    let (state, task, _) =
        step(state, RecoveryEvent::ShardValidated { found: true, error: Some("checksum".to_string()) });
    assert_eq!(task, RecoveryTask::RepairShard(0));
    let (state, task, issue) = step(
        state,
        RecoveryEvent::ShardRepaired {
            shard: "s0".to_string(),
            original_error: "checksum".to_string(),
            error: Some("no wal".to_string()),
        },
    );
    assert_eq!(task, RecoveryTask::ValidateShard(1));
    issues.extend(issue);
    let (state, _, _) =
        step(state, RecoveryEvent::ShardValidated { found: true, error: Some("partial".to_string()) });
    let (state, task, issue) = step(
        state,
        RecoveryEvent::ShardRepaired { shard: "s1".to_string(), original_error: "partial".to_string(), error: None },
    );
    assert_eq!((task, issue), (RecoveryTask::RevalidateShard(1), None));
    let (state, task, issue) = step(
        state,
        RecoveryEvent::ShardRevalidated { shard: "s1".to_string(), found: true, error: Some("still".to_string()) },
    );
    assert_eq!(task, RecoveryTask::Finish);
    assert_eq!(state, RecoveryState::Finished);
    issues.extend(issue);
    assert_eq!(
        issues,
        vec![
            "Consistency validation failed: bad".to_string(),
            "Metadata corruption detected: gone".to_string(),
            "Shard s0 repair failed: no wal (original error: checksum)".to_string(),
            "Shard s1 failed validation after repair: still".to_string(),
        ]
    );
    match recovery_outcome(&issues) {
        Err(ShardexError::Corruption(message)) => assert_eq!(
            message,
            "Index recovery found 4 issues: Consistency validation failed: bad; Metadata corruption detected: gone; \
             Shard s0 repair failed: no wal (original error: checksum); Shard s1 failed validation after repair: still. \
             Recovery: Consider rebuilding the index from source data or restoring from backup"
        ),
        other => panic!("unexpected {:?}", other),
    }
}

#[test]
fn unexpected_event_asks_the_same_task_again() {
    let (state, _) = start_recovery();
    let (next, task, issue) = step(state, RecoveryEvent::ShardsListed(3));
    assert_eq!((next, task, issue), (state, RecoveryTask::ValidateConsistency, None));
    let (state, task, _) = step(RecoveryState::ListingShards, RecoveryEvent::ShardsListed(0));
    assert_eq!((state, task), (RecoveryState::Finished, RecoveryTask::Finish));
}
