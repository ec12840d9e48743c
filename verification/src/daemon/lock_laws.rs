//! What holds of every attempt on the lock of a workspace, whatever the system says.

use crate::daemon::lock::{
    lock_conflict_error, validate_unix_lock_file, LockAction, LockAttempt, LockConflict, LockEnd,
    LockFacts, LockMetadata, LockPhase, LockPurpose, LockSeen,
};
use crate::error::{AppError, IoKind};
use crate::text;
use vstd::prelude::*;

verus! {

/// Whether a file may be a lock: an ordinary file of the user that only they may read and write,
/// and still the one that its path names.
pub open spec fn may_be_a_lock(facts: LockFacts, expected_uid: u32) -> bool {
    &&& facts.is_file
    &&& facts.uid == expected_uid
    &&& facts.mode & 0o7777 == 0o600
    &&& facts.at_path matches Ok(at_path) && !at_path.is_symlink && at_path.device == facts.device
        && at_path.inode == facts.inode
}

/// A file is refused exactly where it may not be a lock.
pub proof fn only_a_safe_file_is_a_lock(
    path: &str,
    facts: &LockFacts,
    expected_uid: u32,
    result: Result<(), String>,
)
    requires
        call_ensures(validate_unix_lock_file, (path, facts, expected_uid), result),
    ensures
        result is Ok <==> may_be_a_lock(*facts, expected_uid),
{
}

/// The error that a caller sees names the lock, and its holder as far as it is known.
pub proof fn a_conflict_names_the_lock(conflict: LockConflict, error: AppError)
    requires
        call_ensures(lock_conflict_error, (conflict,), error),
    ensures
        error matches AppError::DaemonLockHeld { path, owner } && path == conflict.path && (
        conflict.metadata matches Some(holder) ==> owner@ == "pid="@ + text::decimal(
            holder.pid as nat,
        ) + " workspace_id="@ + holder.workspace_id@ + " socket_path="@ + holder.socket_path@) && (
        conflict.metadata is None ==> (conflict.metadata_error matches Some(complaint) ==> owner@
            == "metadata unreadable: "@ + complaint@)),
{
}

/// An attempt stays with its file and what it is for, whatever comes of its actions.
pub proof fn an_attempt_stays_with_its_file(
    before: LockAttempt,
    after: LockAttempt,
    seen: LockSeen,
    action: LockAction,
)
    requires
        exists|x: &mut LockAttempt|
            *x == before && *final(x) == after && #[trigger] call_ensures(
                LockAttempt::step,
                (x, seen),
                action,
            ),
    ensures
        after.path == before.path,
        after.purpose == before.purpose,
        after.expected_uid == before.expected_uid,
        after.phase == LockPhase::Ended <==> action is Return,
        action matches LockAction::Return(LockEnd::Conflict(conflict)) ==> conflict.path
            == before.path,
{
}

/// A file that may not be a lock ends the attempt. One that may is locked after it was opened; once
/// it is locked, an attempt to hold it writes down its holder, and one that only looks is done; the
/// lock is held when the file is still good after that.
pub proof fn a_checked_file_is_gone_on_with(
    before: LockAttempt,
    after: LockAttempt,
    facts: LockFacts,
    action: LockAction,
)
    requires
        before.phase == LockPhase::CheckingOpened || before.phase == LockPhase::CheckingLocked
            || before.phase == LockPhase::CheckingWritten,
        exists|x: &mut LockAttempt|
            *x == before && *final(x) == after && #[trigger] call_ensures(
                LockAttempt::step,
                (x, LockSeen::Facts(facts)),
                action,
            ),
    ensures
        !may_be_a_lock(facts, before.expected_uid) ==> (action matches LockAction::Return(
            LockEnd::Conflict(conflict),
        ) && conflict.metadata is None && conflict.metadata_error is Some),
        may_be_a_lock(facts, before.expected_uid) ==> {
            &&& before.phase == LockPhase::CheckingOpened ==> action is Lock && after.phase
                == LockPhase::Locking
            &&& before.phase == LockPhase::CheckingLocked && before.purpose == LockPurpose::Acquire
                ==> action is Write && after.phase == LockPhase::Writing
            &&& before.phase == LockPhase::CheckingLocked && before.purpose == LockPurpose::Probe
                ==> action == LockAction::Return(LockEnd::Unheld)
            &&& before.phase == LockPhase::CheckingWritten ==> action == LockAction::Return(
                LockEnd::Held,
            )
        },
{
}

/// A failure ends the attempt, but for two: a lock that somebody has is asked for its holder, and a
/// lock that is only looked at and is not there is held by nobody.
pub proof fn a_failure_is_a_conflict(
    before: LockAttempt,
    after: LockAttempt,
    kind: IoKind,
    message: String,
    action: LockAction,
)
    requires
        exists|x: &mut LockAttempt|
            *x == before && *final(x) == after && #[trigger] call_ensures(
                LockAttempt::step,
                (x, LockSeen::Failed { kind, message }),
                action,
            ),
    ensures
        action is ReadOwner <==> before.phase == LockPhase::Locking && kind == IoKind::WouldBlock,
        action == LockAction::Return(LockEnd::Unheld) <==> before.phase == LockPhase::Opening
            && before.purpose == LockPurpose::Probe && kind == IoKind::NotFound,
        action is ReadOwner || action is Return,
        action != LockAction::Return(LockEnd::Held),
        action matches LockAction::Return(LockEnd::Conflict(conflict)) ==> conflict.metadata is None
            && conflict.metadata_error is Some && (before.phase != LockPhase::Locking
            ==> conflict.metadata_error->0@ == message@) && (before.phase == LockPhase::Locking
            ==> conflict.metadata_error->0@ == "advisory lock unavailable: "@ + message@),
{
}

/// The holder of a lock that somebody has is reported as the file names them, or why it does not.
pub proof fn the_holder_is_reported(
    before: LockAttempt,
    after: LockAttempt,
    owner: Result<LockMetadata, String>,
    action: LockAction,
)
    requires
        before.phase == LockPhase::ReadingOwner,
        exists|x: &mut LockAttempt|
            *x == before && *final(x) == after && #[trigger] call_ensures(
                LockAttempt::step,
                (x, LockSeen::Owner(owner)),
                action,
            ),
    ensures
        action matches LockAction::Return(LockEnd::Conflict(conflict)) && (owner matches Ok(holder)
            ==> conflict.metadata == Some(holder) && conflict.metadata_error is None) && (
        owner matches Err(complaint) ==> conflict.metadata is None && conflict.metadata_error
            == Some(complaint)),
{
}

/// What was done is followed by a look at the file, but for its directory, which is followed by the
/// opening of the file.
pub proof fn what_was_done_is_checked(
    before: LockAttempt,
    after: LockAttempt,
    action: LockAction,
)
    requires
        before.phase == LockPhase::CreatingParent || before.phase == LockPhase::Opening
            || before.phase == LockPhase::Locking || before.phase == LockPhase::Writing,
        exists|x: &mut LockAttempt|
            *x == before && *final(x) == after && #[trigger] call_ensures(
                LockAttempt::step,
                (x, LockSeen::Done),
                action,
            ),
    ensures
        before.phase == LockPhase::CreatingParent ==> action == (LockAction::Open { create: true }),
        before.phase != LockPhase::CreatingParent ==> action is Inspect,
        before.phase == LockPhase::Opening ==> after.phase == LockPhase::CheckingOpened,
        before.phase == LockPhase::Locking ==> after.phase == LockPhase::CheckingLocked,
        before.phase == LockPhase::Writing ==> after.phase == LockPhase::CheckingWritten,
{
}

} // verus!
