//! Decisions of the index's error handling: when a failed operation is
//! retried and after what pause, how an exhausted resource is handled, and
//! how an index is recovered after a crash.
//!
//! The operations themselves, the pauses and the flushes are performed by the
//! caller; these functions decide, from what the caller reports, what it does
//! next.

use vstd::prelude::*;

use crate::error::{owned, ErrorModel, ShardexError};
use crate::text::{decimal, with_number, with_text};

verus! {

/// Retries allowed after the first attempt of an operation.
pub const MAX_RETRIES: u32 = 3;

/// Pause before the first retry, in milliseconds.
pub const INITIAL_BACKOFF_MS: u64 = 100;

/// Longest pause between two attempts, in milliseconds.
pub const MAX_BACKOFF_MS: u64 = 5000;

/// Where a retry loop stands: how many retries it has made, and the pause
/// before the next one.
#[derive(Debug, Clone, Copy, PartialEq, Eq, Structural)]
pub struct RetryState {
    pub retry_count: u32,
    pub backoff_ms: u64,
}

/// What an attempt of the operation came to.
#[derive(Debug, Clone, Copy, PartialEq, Eq, Structural)]
pub enum AttemptOutcome {
    /// The operation succeeded.
    Succeeded,
    /// The operation failed with an error that may go away on its own.
    TransientFailure,
    /// The operation failed with an error that a retry cannot mend.
    PermanentFailure,
}

/// What the retry loop does next.
#[derive(Debug, Clone, Copy, PartialEq, Eq, Structural)]
pub enum RetryAction {
    /// Hand the operation's result back.
    ReturnSuccess,
    /// Hand the operation's error back.
    ReturnFailure,
    /// Pause this many milliseconds, then attempt the operation again.
    RetryAfterMs(u64),
}

/// The pause before retry number `k + 1`: the initial pause, doubled after
/// each retry, and never more than [`MAX_BACKOFF_MS`].
pub open spec fn backoff_before_retry(k: nat) -> int
    decreases k,
{
    if k == 0 {
        INITIAL_BACKOFF_MS as int
    } else {
        let doubled = 2 * backoff_before_retry((k - 1) as nat);
        if doubled <= MAX_BACKOFF_MS {
            doubled
        } else {
            MAX_BACKOFF_MS as int
        }
    }
}

/// A state that a retry loop started by [`initial_retry_state`] can be in.
pub open spec fn retry_state_reachable(s: RetryState) -> bool {
    &&& s.retry_count <= MAX_RETRIES
    &&& s.backoff_ms == backoff_before_retry(s.retry_count as nat)
}

/// What [`next_retry_action`] decides.
pub open spec fn retry_step(s: RetryState, outcome: AttemptOutcome) -> (RetryState, RetryAction) {
    match outcome {
        AttemptOutcome::Succeeded => (s, RetryAction::ReturnSuccess),
        AttemptOutcome::PermanentFailure => (s, RetryAction::ReturnFailure),
        AttemptOutcome::TransientFailure => if s.retry_count < MAX_RETRIES {
            let doubled = 2 * s.backoff_ms;
            let next_backoff = if doubled <= MAX_BACKOFF_MS {
                doubled
            } else {
                MAX_BACKOFF_MS as int
            };
            (
                RetryState { retry_count: (s.retry_count + 1) as u32, backoff_ms: next_backoff as u64 },
                RetryAction::RetryAfterMs(s.backoff_ms),
            )
        } else {
            (s, RetryAction::ReturnFailure)
        },
    }
}

/// The state before the first attempt: no retries made, and the initial pause.
pub fn initial_retry_state() -> (s: RetryState)
    ensures
        s.retry_count == 0,
        s.backoff_ms == INITIAL_BACKOFF_MS,
        retry_state_reachable(s),
{
    RetryState { retry_count: 0, backoff_ms: INITIAL_BACKOFF_MS }
}

/// Decide what follows an attempt: a success or a permanent failure is handed
/// back at once; a transient failure is retried after the current pause, with
/// the pause doubled (up to [`MAX_BACKOFF_MS`]) for the next retry, until
/// [`MAX_RETRIES`] retries have been made, after which it is handed back.
pub fn next_retry_action(state: RetryState, outcome: AttemptOutcome) -> (r: (RetryState, RetryAction))
    requires
        state.backoff_ms <= u64::MAX / 2,
    ensures
        r == retry_step(state, outcome),
{
    match outcome {
        AttemptOutcome::Succeeded => (state, RetryAction::ReturnSuccess),
        AttemptOutcome::PermanentFailure => (state, RetryAction::ReturnFailure),
        AttemptOutcome::TransientFailure => {
            if state.retry_count < MAX_RETRIES {
                let doubled = 2 * state.backoff_ms;
                let next_backoff = if doubled <= MAX_BACKOFF_MS {
                    doubled
                } else {
                    MAX_BACKOFF_MS
                };
                (
                    RetryState { retry_count: state.retry_count + 1, backoff_ms: next_backoff },
                    RetryAction::RetryAfterMs(state.backoff_ms),
                )
            } else {
                (state, RetryAction::ReturnFailure)
            }
        },
    }
}

/// The pause before any retry is at most [`MAX_BACKOFF_MS`].
pub proof fn lemma_backoff_bounded(k: nat)
    ensures
        0 < backoff_before_retry(k) <= MAX_BACKOFF_MS,
    decreases k,
{
    if k > 0 {
        lemma_backoff_bounded((k - 1) as nat);
    }
}

/// The pause before retry number `k + 1` is the initial 100 ms doubled `k`
/// times, capped at [`MAX_BACKOFF_MS`].
pub proof fn lemma_backoff_doubles(k: nat)
    ensures
        backoff_before_retry(k) == if INITIAL_BACKOFF_MS * vstd::arithmetic::power2::pow2(k) <= MAX_BACKOFF_MS {
            INITIAL_BACKOFF_MS * vstd::arithmetic::power2::pow2(k)
        } else {
            MAX_BACKOFF_MS as int
        },
    decreases k,
{
    if k == 0 {
        vstd::arithmetic::power2::lemma2_to64();
    } else {
        lemma_backoff_doubles((k - 1) as nat);
        vstd::arithmetic::power2::lemma_pow2_unfold(k);
    }
}

/// A retry loop stays in reachable states: each retry counts one more retry
/// and pauses for the scheduled backoff, so that at most [`MAX_RETRIES`]
/// retries, and so `MAX_RETRIES + 1` attempts, are ever made; every other
/// decision ends the loop.
pub proof fn lemma_retry_step_keeps_schedule(s: RetryState, outcome: AttemptOutcome)
    requires
        retry_state_reachable(s),
    ensures
        retry_step(s, outcome).1 matches RetryAction::RetryAfterMs(ms) ==> {
            &&& ms == backoff_before_retry(s.retry_count as nat)
            &&& retry_step(s, outcome).0.retry_count == s.retry_count + 1
            &&& retry_state_reachable(retry_step(s, outcome).0)
        },
        !(retry_step(s, outcome).1 is RetryAfterMs) ==> retry_step(s, outcome).0 == s,
        retry_step(s, outcome).1 is RetryAfterMs ==> s.retry_count < MAX_RETRIES,
{
    lemma_backoff_bounded(s.retry_count as nat);
}

/// A resource whose exhaustion the index knows how to handle.
#[derive(Debug, Clone, Copy, PartialEq, Eq, Structural)]
pub enum ExhaustedResource {
    /// Memory: relieved by an emergency flush.
    Memory,
    /// Disk space: relieved by removing temporary files and compacting the log.
    DiskSpace,
    /// File handles: relieved by a flush that closes log handles.
    FileHandles,
}

/// The resource a name stands for, if the index knows it.
pub open spec fn resource_named(name: Seq<char>) -> Option<ExhaustedResource> {
    if name == "memory"@ {
        Some(ExhaustedResource::Memory)
    } else if name == "disk_space"@ {
        Some(ExhaustedResource::DiskSpace)
    } else if name == "file_handles"@ {
        Some(ExhaustedResource::FileHandles)
    } else {
        None
    }
}

/// Name the exhausted resource: "memory", "disk_space" and "file_handles" are
/// known; any other name is refused with a resource-exhausted error that
/// carries the name.
pub fn classify_exhausted_resource(resource: &str) -> (r: Result<ExhaustedResource, ShardexError>)
    ensures
        resource_named(resource@) matches Some(k) ==> r == Ok::<ExhaustedResource, ShardexError>(k),
        resource_named(resource@) is None ==> (r matches Err(e) && e.model() == (ErrorModel::ResourceExhausted {
            resource: resource@,
            reason: "Unknown resource type: "@ + resource@,
            suggestion: "Check system resources and configuration"@,
        })),
{
    let name = owned(resource);
    if name == owned("memory") {
        Ok(ExhaustedResource::Memory)
    } else if name == owned("disk_space") {
        Ok(ExhaustedResource::DiskSpace)
    } else if name == owned("file_handles") {
        Ok(ExhaustedResource::FileHandles)
    } else {
        Err(ShardexError::ResourceExhausted {
            resource: name,
            reason: with_text(owned("Unknown resource type: "), resource),
            suggestion: owned("Check system resources and configuration"),
        })
    }
}

/// Whether disk-space relief worked: it did if at least one temporary file
/// was removed or the log flush succeeded; otherwise the disk space stays
/// exhausted.
pub fn disk_cleanup_outcome(temp_files_removed: usize, flush_succeeded: bool) -> (r: Result<(), ShardexError>)
    ensures
        r is Ok <==> (temp_files_removed > 0 || flush_succeeded),
        r matches Err(e) ==> e.model() == (ErrorModel::ResourceExhausted {
            resource: "disk_space"@,
            reason: "Insufficient disk space for operations after cleanup attempt"@,
            suggestion: "Free up disk space manually or move the index to a location with more available space"@,
        }),
{
    if temp_files_removed > 0 || flush_succeeded {
        Ok(())
    } else {
        Err(ShardexError::ResourceExhausted {
            resource: owned("disk_space"),
            reason: owned("Insufficient disk space for operations after cleanup attempt"),
            suggestion: owned("Free up disk space manually or move the index to a location with more available space"),
        })
    }
}

// ----- index recovery -----

/// Where a recovery of the index stands. The shards are taken by their
/// position in the listing that the caller made of them.
#[derive(Debug, Clone, Copy, PartialEq, Eq, Structural)]
pub enum RecoveryState {
    /// Checking the index's consistency
    CheckingConsistency,
    /// Loading the index metadata, to learn whether the log must be replayed
    LoadingMetadata,
    /// Replaying the write-ahead log
    ReplayingWal,
    /// Listing the shards
    ListingShards,
    /// Validating shard `index` of `count`
    ValidatingShard { index: usize, count: usize },
    /// Repairing shard `index` of `count`, which failed validation
    RepairingShard { index: usize, count: usize },
    /// Validating shard `index` of `count` again after its repair
    RevalidatingShard { index: usize, count: usize },
    /// Every step is done
    Finished,
}

/// The work the caller does next.
#[derive(Debug, Clone, Copy, PartialEq, Eq, Structural)]
pub enum RecoveryTask {
    ValidateConsistency,
    LoadMetadata,
    ReplayWal,
    ListShards,
    ValidateShard(usize),
    RepairShard(usize),
    RevalidateShard(usize),
    /// Hand the collected issues to [`recovery_outcome`]
    Finish,
}

/// What the caller reports of the work it did; an error is given by its text,
/// and a shard by the text of its id.
#[derive(Debug, Clone, PartialEq)]
pub enum RecoveryEvent {
    /// The consistency check passed (`None`) or failed with this error
    ConsistencyChecked(Option<String>),
    /// The metadata was read; its flag says whether the log needs replaying
    MetadataLoaded { needs_recovery: bool },
    /// The metadata could not be read
    MetadataUnreadable(String),
    /// The log replay succeeded (`None`) or failed with this error
    WalReplayed(Option<String>),
    /// The index has this many shards
    ShardsListed(usize),
    /// The shard could (`found`) or could not be loaded, and its validation
    /// passed (`None`) or failed with this error
    ShardValidated { found: bool, error: Option<String> },
    /// The repair of `shard`, which had failed validation with
    /// `original_error`, succeeded (`None`) or failed with this error
    ShardRepaired { shard: String, original_error: String, error: Option<String> },
    /// After its repair, `shard` could (`found`) or could not be loaded, and
    /// its validation passed (`None`) or failed with this error
    ShardRevalidated { shard: String, found: bool, error: Option<String> },
}

/// A [`RecoveryEvent`] with its texts as character sequences.
pub enum RecoveryEventModel {
    ConsistencyChecked(Option<Seq<char>>),
    MetadataLoaded { needs_recovery: bool },
    MetadataUnreadable(Seq<char>),
    WalReplayed(Option<Seq<char>>),
    ShardsListed(usize),
    ShardValidated { found: bool, error: Option<Seq<char>> },
    ShardRepaired { shard: Seq<char>, original_error: Seq<char>, error: Option<Seq<char>> },
    ShardRevalidated { shard: Seq<char>, found: bool, error: Option<Seq<char>> },
}

/// The text of an optional error.
pub open spec fn opt_text(e: Option<String>) -> Option<Seq<char>> {
    match e {
        Some(s) => Some(s@),
        None => None,
    }
}

impl View for RecoveryEvent {
    type V = RecoveryEventModel;

    open spec fn view(&self) -> RecoveryEventModel {
        match self {
            RecoveryEvent::ConsistencyChecked(e) => RecoveryEventModel::ConsistencyChecked(opt_text(*e)),
            RecoveryEvent::MetadataLoaded { needs_recovery } => RecoveryEventModel::MetadataLoaded {
                needs_recovery: *needs_recovery,
            },
            RecoveryEvent::MetadataUnreadable(e) => RecoveryEventModel::MetadataUnreadable(e@),
            RecoveryEvent::WalReplayed(e) => RecoveryEventModel::WalReplayed(opt_text(*e)),
            RecoveryEvent::ShardsListed(n) => RecoveryEventModel::ShardsListed(*n),
            RecoveryEvent::ShardValidated { found, error } => RecoveryEventModel::ShardValidated {
                found: *found,
                error: opt_text(*error),
            },
            RecoveryEvent::ShardRepaired { shard, original_error, error } => RecoveryEventModel::ShardRepaired {
                shard: shard@,
                original_error: original_error@,
                error: opt_text(*error),
            },
            RecoveryEvent::ShardRevalidated { shard, found, error } => RecoveryEventModel::ShardRevalidated {
                shard: shard@,
                found: *found,
                error: opt_text(*error),
            },
        }
    }
}

/// What the recovery does after an event: the next task, and the issue that
/// the event revealed, if any, for the caller to collect.
#[derive(Debug, Clone, PartialEq)]
pub struct RecoveryAction {
    pub task: RecoveryTask,
    pub issue: Option<String>,
}

/// A [`RecoveryAction`] with its issue as a character sequence.
pub struct RecoveryActionModel {
    pub task: RecoveryTask,
    pub issue: Option<Seq<char>>,
}

impl View for RecoveryAction {
    type V = RecoveryActionModel;

    open spec fn view(&self) -> RecoveryActionModel {
        RecoveryActionModel { task: self.task, issue: opt_text(self.issue) }
    }
}

/// The task that a recovery in `state` waits on.
pub open spec fn task_of(state: RecoveryState) -> RecoveryTask {
    match state {
        RecoveryState::CheckingConsistency => RecoveryTask::ValidateConsistency,
        RecoveryState::LoadingMetadata => RecoveryTask::LoadMetadata,
        RecoveryState::ReplayingWal => RecoveryTask::ReplayWal,
        RecoveryState::ListingShards => RecoveryTask::ListShards,
        RecoveryState::ValidatingShard { index, .. } => RecoveryTask::ValidateShard(index),
        RecoveryState::RepairingShard { index, .. } => RecoveryTask::RepairShard(index),
        RecoveryState::RevalidatingShard { index, .. } => RecoveryTask::RevalidateShard(index),
        RecoveryState::Finished => RecoveryTask::Finish,
    }
}

/// The state that validates shard `index` of `count`, or the finished state
/// when none is left.
pub open spec fn shard_or_finish(index: int, count: usize) -> RecoveryState {
    if index < count {
        RecoveryState::ValidatingShard { index: index as usize, count }
    } else {
        RecoveryState::Finished
    }
}

/// Moves to `state`, waiting on its task, with an optional issue.
pub open spec fn go(state: RecoveryState, issue: Option<Seq<char>>) -> (RecoveryState, RecoveryActionModel) {
    (state, RecoveryActionModel { task: task_of(state), issue })
}

/// An optional error, prefixed to make an issue.
pub open spec fn issue_from(prefix: Seq<char>, e: Option<Seq<char>>) -> Option<Seq<char>> {
    match e {
        Some(t) => Some(prefix + t),
        None => None,
    }
}

/// What [`next_recovery_step`] decides: the steps run in the order
/// consistency check, metadata, log replay (only when the metadata asks for
/// it), then each shard: a shard that fails validation is repaired and, once
/// repaired, validated again. A failed check, an unreadable metadata, a failed
/// replay, a failed repair or a failed second validation is an issue. A shard
/// that cannot be loaded is passed over. An event that does not answer the
/// task waited on changes nothing, and the task is asked again.
pub open spec fn recovery_step(state: RecoveryState, event: RecoveryEventModel) -> (RecoveryState, RecoveryActionModel) {
    match (state, event) {
        (RecoveryState::CheckingConsistency, RecoveryEventModel::ConsistencyChecked(e)) => go(
            RecoveryState::LoadingMetadata,
            issue_from("Consistency validation failed: "@, e),
        ),
        (RecoveryState::LoadingMetadata, RecoveryEventModel::MetadataLoaded { needs_recovery }) => if needs_recovery {
            go(RecoveryState::ReplayingWal, None)
        } else {
            go(RecoveryState::ListingShards, None)
        },
        (RecoveryState::LoadingMetadata, RecoveryEventModel::MetadataUnreadable(e)) => go(
            RecoveryState::ListingShards,
            Some("Metadata corruption detected: "@ + e),
        ),
        (RecoveryState::ReplayingWal, RecoveryEventModel::WalReplayed(e)) => go(
            RecoveryState::ListingShards,
            issue_from("WAL recovery failed: "@, e),
        ),
        (RecoveryState::ListingShards, RecoveryEventModel::ShardsListed(n)) => go(shard_or_finish(0, n), None),
        (RecoveryState::ValidatingShard { index, count }, RecoveryEventModel::ShardValidated { found, error }) =>
            if found && error is Some {
            go(RecoveryState::RepairingShard { index, count }, None)
        } else {
            go(shard_or_finish(index + 1, count), None)
        },
        (
            RecoveryState::RepairingShard { index, count },
            RecoveryEventModel::ShardRepaired { shard, original_error, error },
        ) => match error {
            Some(e) => go(
                shard_or_finish(index + 1, count),
                Some("Shard "@ + shard + " repair failed: "@ + e + " (original error: "@ + original_error + ")"@),
            ),
            None => go(RecoveryState::RevalidatingShard { index, count }, None),
        },
        (
            RecoveryState::RevalidatingShard { index, count },
            RecoveryEventModel::ShardRevalidated { shard, found, error },
        ) => go(
            shard_or_finish(index + 1, count),
            if found {
                issue_from("Shard "@ + shard + " failed validation after repair: "@, error)
            } else {
                None
            },
        ),
        _ => go(state, None),
    }
}

/// A recovery's states are consistent: a shard position lies below the count.
pub open spec fn recovery_state_valid(state: RecoveryState) -> bool {
    match state {
        RecoveryState::ValidatingShard { index, count } => index < count,
        RecoveryState::RepairingShard { index, count } => index < count,
        RecoveryState::RevalidatingShard { index, count } => index < count,
        _ => true,
    }
}

/// How far a recovery has come: each step that answers its task moves this
/// bounded measure up, so a recovery whose caller answers every task finishes.
pub open spec fn recovery_progress(state: RecoveryState) -> int {
    match state {
        RecoveryState::CheckingConsistency => 0,
        RecoveryState::LoadingMetadata => 1,
        RecoveryState::ReplayingWal => 2,
        RecoveryState::ListingShards => 3,
        RecoveryState::ValidatingShard { index, .. } => 4 + 3 * index,
        RecoveryState::RepairingShard { index, .. } => 5 + 3 * index,
        RecoveryState::RevalidatingShard { index, .. } => 6 + 3 * index,
        RecoveryState::Finished => 3 * (usize::MAX as int) + 7,
    }
}

/// The first recovery state and the task it waits on.
pub fn start_recovery() -> (r: (RecoveryState, RecoveryAction))
    ensures
        r.0 == RecoveryState::CheckingConsistency,
        r.1@ == (RecoveryActionModel { task: RecoveryTask::ValidateConsistency, issue: None }),
{
    (RecoveryState::CheckingConsistency, RecoveryAction { task: RecoveryTask::ValidateConsistency, issue: None })
}

/// The action that moves to `state`, with an optional issue.
fn go_to(state: RecoveryState, issue: Option<String>) -> (r: (RecoveryState, RecoveryAction))
    ensures
        (r.0, r.1@) == go(state, opt_text(issue)),
{
    let task = match state {
        RecoveryState::CheckingConsistency => RecoveryTask::ValidateConsistency,
        RecoveryState::LoadingMetadata => RecoveryTask::LoadMetadata,
        RecoveryState::ReplayingWal => RecoveryTask::ReplayWal,
        RecoveryState::ListingShards => RecoveryTask::ListShards,
        RecoveryState::ValidatingShard { index, .. } => RecoveryTask::ValidateShard(index),
        RecoveryState::RepairingShard { index, .. } => RecoveryTask::RepairShard(index),
        RecoveryState::RevalidatingShard { index, .. } => RecoveryTask::RevalidateShard(index),
        RecoveryState::Finished => RecoveryTask::Finish,
    };
    (state, RecoveryAction { task, issue })
}

/// The state that validates shard `index` of `count`, or the finished state.
fn shard_or_finished(index: usize, count: usize) -> (s: RecoveryState)
    ensures
        s == shard_or_finish(index as int, count),
{
    if index < count {
        RecoveryState::ValidatingShard { index, count }
    } else {
        RecoveryState::Finished
    }
}

/// `prefix` followed by the error, if there is one.
fn issue_text(prefix: &str, e: &Option<String>) -> (r: Option<String>)
    ensures
        opt_text(r) == issue_from(prefix@, opt_text(*e)),
{
    match e {
        Some(t) => Some(with_text(owned(prefix), t.as_str())),
        None => None,
    }
}

/// Decide the next step of a recovery from the event that answers the task
/// it waits on, as [`recovery_step`] describes.
pub fn next_recovery_step(state: RecoveryState, event: &RecoveryEvent) -> (r: (RecoveryState, RecoveryAction))
    requires
        recovery_state_valid(state),
    ensures
        (r.0, r.1@) == recovery_step(state, event@),
        recovery_state_valid(r.0),
        state == RecoveryState::CheckingConsistency ==> (event matches RecoveryEvent::ConsistencyChecked(Some(e))
            ==> (r.1.issue matches Some(t) && t@ == "Consistency validation failed: "@ + e@)),
        state == RecoveryState::LoadingMetadata ==> (event matches RecoveryEvent::MetadataUnreadable(e) ==> (
        r.1.issue matches Some(t) && t@ == "Metadata corruption detected: "@ + e@)),
        state == RecoveryState::ReplayingWal ==> (event matches RecoveryEvent::WalReplayed(Some(e)) ==> (
        r.1.issue matches Some(t) && t@ == "WAL recovery failed: "@ + e@)),
        state is RepairingShard ==> (event matches RecoveryEvent::ShardRepaired {
            shard,
            original_error,
            error: Some(e),
        } ==> (r.1.issue matches Some(t) && t@ == "Shard "@ + shard@ + " repair failed: "@ + e@
            + " (original error: "@ + original_error@ + ")"@)),
        state is RevalidatingShard ==> (event matches RecoveryEvent::ShardRevalidated {
            shard,
            found: true,
            error: Some(e),
        } ==> (r.1.issue matches Some(t) && t@ == "Shard "@ + shard@ + " failed validation after repair: "@
            + e@)),
{
    proof {
        lemma_recovery_reports_failures(state, event@);
    }
    match (state, event) {
        (RecoveryState::CheckingConsistency, RecoveryEvent::ConsistencyChecked(e)) => go_to(
            RecoveryState::LoadingMetadata,
            issue_text("Consistency validation failed: ", e),
        ),
        (RecoveryState::LoadingMetadata, RecoveryEvent::MetadataLoaded { needs_recovery }) => if *needs_recovery {
            go_to(RecoveryState::ReplayingWal, None)
        } else {
            go_to(RecoveryState::ListingShards, None)
        },
        (RecoveryState::LoadingMetadata, RecoveryEvent::MetadataUnreadable(e)) => go_to(
            RecoveryState::ListingShards,
            Some(with_text(owned("Metadata corruption detected: "), e.as_str())),
        ),
        (RecoveryState::ReplayingWal, RecoveryEvent::WalReplayed(e)) => go_to(
            RecoveryState::ListingShards,
            issue_text("WAL recovery failed: ", e),
        ),
        (RecoveryState::ListingShards, RecoveryEvent::ShardsListed(n)) => go_to(shard_or_finished(0, *n), None),
        (RecoveryState::ValidatingShard { index, count }, RecoveryEvent::ShardValidated { found, error }) => {
            if *found && error.is_some() {
                go_to(RecoveryState::RepairingShard { index, count }, None)
            } else {
                go_to(shard_or_finished(index + 1, count), None)
            }
        },
        (
            RecoveryState::RepairingShard { index, count },
            RecoveryEvent::ShardRepaired { shard, original_error, error },
        ) => match error {
            Some(e) => {
                let issue = with_text(owned("Shard "), shard.as_str());
                let issue = with_text(issue, " repair failed: ");
                let issue = with_text(issue, e.as_str());
                let issue = with_text(issue, " (original error: ");
                let issue = with_text(issue, original_error.as_str());
                let issue = with_text(issue, ")");
                go_to(shard_or_finished(index + 1, count), Some(issue))
            },
            None => go_to(RecoveryState::RevalidatingShard { index, count }, None),
        },
        (
            RecoveryState::RevalidatingShard { index, count },
            RecoveryEvent::ShardRevalidated { shard, found, error },
        ) => {
            let issue = if *found {
                let prefix = with_text(owned("Shard "), shard.as_str());
                let prefix = with_text(prefix, " failed validation after repair: ");
                issue_text(prefix.as_str(), error)
            } else {
                None
            };
            go_to(shard_or_finished(index + 1, count), issue)
        },
        _ => go_to(state, None),
    }
}

/// Each recovery step keeps the state consistent, and a step whose event
/// answers the task waited on moves the recovery forward; the finished state
/// stays finished.
pub proof fn lemma_recovery_moves_forward(state: RecoveryState, event: RecoveryEventModel)
    requires
        recovery_state_valid(state),
    ensures
        recovery_state_valid(recovery_step(state, event).0),
        recovery_step(state, event).0 == state || recovery_progress(state) < recovery_progress(
            recovery_step(state, event).0,
        ),
        state == RecoveryState::Finished ==> recovery_step(state, event).0 == RecoveryState::Finished,
        recovery_step(state, event).1.task == task_of(recovery_step(state, event).0),
{
}

/// The shard position after shard `index` of `count`: the next shard, or the end.
pub open spec fn after_shard(index: int, count: usize) -> RecoveryState {
    if index + 1 < count {
        RecoveryState::ValidatingShard { index: (index + 1) as usize, count }
    } else {
        RecoveryState::Finished
    }
}

/// Every failure that a recovery step is told of becomes an issue that carries
/// the error's text, and a success becomes none: a failed consistency check,
/// unreadable metadata, a failed log replay, a failed repair (with the error
/// that called for it) and a failed second validation each give their issue;
/// a shard that fails its first validation is repaired before anything is
/// reported. The steps go from the consistency check to the metadata, to the
/// log replay when the metadata asks for it, and through the shards in order.
pub proof fn lemma_recovery_reports_failures(state: RecoveryState, event: RecoveryEventModel)
    requires
        recovery_state_valid(state),
    ensures
        ({
            let (next, action) = recovery_step(state, event);
            &&& state == RecoveryState::CheckingConsistency ==> (event matches RecoveryEventModel::ConsistencyChecked(e) ==> {
                &&& next == RecoveryState::LoadingMetadata
                &&& action.issue == (match e {
                    Some(t) => Some("Consistency validation failed: "@ + t),
                    None => None::<Seq<char>>,
                })
            })
            &&& state == RecoveryState::LoadingMetadata ==> (event matches RecoveryEventModel::MetadataUnreadable(t) ==> {
                &&& next == RecoveryState::ListingShards
                &&& action.issue == Some("Metadata corruption detected: "@ + t)
            })
            &&& state == RecoveryState::LoadingMetadata ==> (event matches RecoveryEventModel::MetadataLoaded {
                needs_recovery,
            } ==> {
                &&& next == (if needs_recovery {
                    RecoveryState::ReplayingWal
                } else {
                    RecoveryState::ListingShards
                })
                &&& action.issue is None
            })
            &&& state == RecoveryState::ReplayingWal ==> (event matches RecoveryEventModel::WalReplayed(e) ==> {
                &&& next == RecoveryState::ListingShards
                &&& action.issue == (match e {
                    Some(t) => Some("WAL recovery failed: "@ + t),
                    None => None::<Seq<char>>,
                })
            })
            &&& state == RecoveryState::ListingShards ==> (event matches RecoveryEventModel::ShardsListed(n) ==> {
                &&& next == (if n > 0 {
                    RecoveryState::ValidatingShard { index: 0, count: n }
                } else {
                    RecoveryState::Finished
                })
                &&& action.issue is None
            })
            &&& state matches RecoveryState::ValidatingShard { index, count } ==> (
            event matches RecoveryEventModel::ShardValidated { found, error } ==> {
                &&& next == (if found && error is Some {
                    RecoveryState::RepairingShard { index, count }
                } else {
                    after_shard(index as int, count)
                })
                &&& action.issue is None
            })
            &&& state matches RecoveryState::RepairingShard { index, count } ==> (
            event matches RecoveryEventModel::ShardRepaired { shard, original_error, error } ==> {
                &&& next == (if error is Some {
                    after_shard(index as int, count)
                } else {
                    RecoveryState::RevalidatingShard { index, count }
                })
                &&& action.issue == (match error {
                    Some(t) => Some("Shard "@ + shard + " repair failed: "@ + t + " (original error: "@
                        + original_error + ")"@),
                    None => None::<Seq<char>>,
                })
            })
            &&& state matches RecoveryState::RevalidatingShard { index, count } ==> (
            event matches RecoveryEventModel::ShardRevalidated { shard, found, error } ==> {
                &&& next == after_shard(index as int, count)
                &&& action.issue == (if found && error is Some {
                    Some("Shard "@ + shard + " failed validation after repair: "@ + error->Some_0)
                } else {
                    None::<Seq<char>>
                })
            })
        }),
{
}

/// The issues joined by `"; "`.
pub open spec fn join_issues(issues: Seq<Seq<char>>) -> Seq<char>
    decreases issues.len(),
{
    if issues.len() == 0 {
        Seq::empty()
    } else if issues.len() == 1 {
        issues[0]
    } else {
        join_issues(issues.drop_last()) + "; "@ + issues.last()
    }
}

/// The error of a recovery that collected these issues.
pub open spec fn recovery_error(issues: Seq<String>) -> ErrorModel {
    ErrorModel::Corruption(
        "Index recovery found "@ + decimal(issues.len()) + " issues: "@ + join_issues(
            issues.map_values(|s: String| s@),
        ) + ". Recovery: Consider rebuilding the index from source data or restoring from backup"@,
    )
}

/// The result of a recovery: `Ok` when it collected no issue, and otherwise a
/// corruption error that counts and lists the issues and suggests a rebuild.
pub fn recovery_outcome(issues: &[String]) -> (r: Result<(), ShardexError>)
    ensures
        r is Ok <==> issues@.len() == 0,
        r matches Err(e) ==> e.model() == recovery_error(issues@),
{
    if issues.len() == 0 {
        return Ok(());
    }
    let ghost texts = issues@.map_values(|s: String| s@);
    let mut joined = issues[0].clone();
    let mut i: usize = 1;
    proof {
        assert(texts.take(1).drop_last() =~= Seq::<Seq<char>>::empty());
        assert(join_issues(texts.take(1)) == texts[0]);
    }
    while i < issues.len()
        invariant
            1 <= i <= issues@.len(),
            texts == issues@.map_values(|s: String| s@),
            joined@ == join_issues(texts.take(i as int)),
        decreases issues@.len() - i,
    {
        let sep = with_text(joined, "; ");
        joined = with_text(sep, issues[i].as_str());
        proof {
            assert(texts.take(i + 1).drop_last() =~= texts.take(i as int));
            assert(texts.take(i + 1).last() == texts[i as int]);
        }
        i = i + 1;
    }
    proof {
        assert(texts.take(issues@.len() as int) =~= texts);
    }
    let message = with_number(owned("Index recovery found "), issues.len() as u128);
    let message = with_text(message, " issues: ");
    let message = with_text(message, joined.as_str());
    let message = with_text(
        message,
        ". Recovery: Consider rebuilding the index from source data or restoring from backup",
    );
    Err(ShardexError::Corruption(message))
}

} // verus!
