//! The lock that keeps a workspace to one writer: which file may be it, who holds it, and how it is
//! taken.

use crate::error::{AppError, IoKind};
use crate::text;
use vstd::prelude::*;

verus! {

/// The access rights that a lock file has: only its owner may read and write it.
pub const LOCK_FILE_MODE: u32 = 0o600;

pub const LOCK_VERSION: u32 = 1;

/// What the holder of a lock writes into it.
#[derive(Debug, PartialEq, Eq)]
pub struct LockMetadata {
    pub v: u32,
    pub pid: u32,
    pub executable: Option<String>,
    pub workspace_root: String,
    pub workspace_id: String,
    pub socket_path: String,
}

/// The holder of a lock in words.
pub open spec fn holder_text(metadata: LockMetadata) -> Seq<char> {
    "pid="@ + text::decimal(metadata.pid as nat) + " workspace_id="@ + metadata.workspace_id@
        + " socket_path="@ + metadata.socket_path@
}

impl LockMetadata {
    /// What the daemon of the whole host writes into its lock.
    pub fn for_host(pid: u32, executable: Option<String>, socket_path: String) -> (result: Self)
        ensures
            result.v == LOCK_VERSION,
            result.pid == pid,
            result.executable == executable,
            result.workspace_root@ == "host"@,
            result.workspace_id@ == "host"@,
            result.socket_path == socket_path,
    {
        LockMetadata {
            v: LOCK_VERSION,
            pid,
            executable,
            workspace_root: "host".to_owned(),
            workspace_id: "host".to_owned(),
            socket_path,
        }
    }

    /// The holder in words.
    pub fn owner_summary(&self) -> (result: String)
        ensures
            result@ == holder_text(*self),
    {
        let pid = text::to_decimal(self.pid as u64);
        let mut out = text::concat3("pid=", pid.as_str(), " workspace_id=");
        out.append(self.workspace_id.as_str());
        out.append(" socket_path=");
        out.append(self.socket_path.as_str());
        out
    }
}

/// Why a lock was not taken.
#[derive(Debug, PartialEq, Eq)]
pub struct LockConflict {
    pub path: String,
    pub metadata: Option<LockMetadata>,
    pub metadata_error: Option<String>,
}

/// Who holds a lock, as far as it is known.
pub open spec fn owner_text(conflict: LockConflict) -> Seq<char> {
    match (conflict.metadata, conflict.metadata_error) {
        (Some(metadata), _) => holder_text(metadata),
        (None, Some(error)) => "metadata unreadable: "@ + error@,
        (None, None) => "metadata missing"@,
    }
}

impl LockConflict {
    /// Who holds the lock, as far as it is known.
    pub fn owner_summary(&self) -> (result: String)
        ensures
            result@ == owner_text(*self),
    {
        match &self.metadata {
            Some(metadata) => metadata.owner_summary(),
            None => match &self.metadata_error {
                Some(error) => text::concat("metadata unreadable: ", error.as_str()),
                None => "metadata missing".to_owned(),
            },
        }
    }
}

/// The error that a caller sees of a conflict.
pub fn lock_conflict_error(conflict: LockConflict) -> (result: AppError)
    ensures
        result matches AppError::DaemonLockHeld { path, owner } && path == conflict.path && owner@
            == owner_text(conflict),
{
    let owner = conflict.owner_summary();
    AppError::DaemonLockHeld { path: conflict.path, owner }
}

/// What the system knows of a path, without following a link.
#[derive(Clone, Copy, Debug, PartialEq, Eq, Structural)]
pub struct PathFacts {
    pub is_symlink: bool,
    pub device: u64,
    pub inode: u64,
}

/// What the system knows of the file that was opened, and of the path that it was opened by or why
/// it knows nothing of that.
#[derive(Debug, PartialEq, Eq)]
pub struct LockFacts {
    pub is_file: bool,
    pub uid: u32,
    pub mode: u32,
    pub device: u64,
    pub inode: u64,
    pub at_path: Result<PathFacts, String>,
}

/// What is wrong with a lock file, if anything is: it must be an ordinary file of the user, that
/// nobody else may touch, and still be the one at the path.
pub open spec fn lock_file_error(path: Seq<char>, facts: LockFacts, expected_uid: u32) -> Option<
    Seq<char>,
> {
    let mode = facts.mode & 0o7777;
    if !facts.is_file {
        Some("lock path is not a regular file: "@ + path)
    } else if facts.uid != expected_uid {
        Some(
            "lock file "@ + path + " is owned by uid "@ + text::decimal(facts.uid as nat)
                + ", expected "@ + text::decimal(expected_uid as nat),
        )
    } else if mode != LOCK_FILE_MODE {
        Some(
            "lock file "@ + path + " has mode "@ + text::octal(mode as nat, 4)
                + ", expected 0600"@,
        )
    } else {
        match facts.at_path {
            Err(message) => Some(message@),
            Ok(at_path) => if at_path.is_symlink || at_path.device != facts.device || at_path.inode
                != facts.inode {
                Some("lock path changed while being opened: "@ + path)
            } else {
                None
            },
        }
    }
}

/// Refuses a file that cannot be a lock.
pub fn validate_unix_lock_file(path: &str, facts: &LockFacts, expected_uid: u32) -> (result: Result<
    (),
    String,
>)
    ensures
        match lock_file_error(path@, *facts, expected_uid) {
            Some(message) => result matches Err(found) && found@ == message,
            None => result is Ok,
        },
{
    if !facts.is_file {
        return Err(text::concat("lock path is not a regular file: ", path));
    }
    if facts.uid != expected_uid {
        let uid = text::to_decimal(facts.uid as u64);
        let expected = text::to_decimal(expected_uid as u64);
        let mut message = text::concat3("lock file ", path, " is owned by uid ");
        message.append(uid.as_str());
        message.append(", expected ");
        message.append(expected.as_str());
        return Err(message);
    }
    let mode: u32 = facts.mode & 0o7777;
    if mode != LOCK_FILE_MODE {
        let shown = text::to_octal(mode, 4);
        let mut message = text::concat3("lock file ", path, " has mode ");
        message.append(shown.as_str());
        message.append(", expected 0600");
        return Err(message);
    }
    match &facts.at_path {
        Err(message) => Err(message.clone()),
        Ok(at_path) => {
            if at_path.is_symlink || at_path.device != facts.device || at_path.inode
                != facts.inode {
                Err(text::concat("lock path changed while being opened: ", path))
            } else {
                Ok(())
            }
        },
    }
}

/// What a lock is asked for.
#[derive(Clone, Copy, Debug, PartialEq, Eq, Structural)]
pub enum LockPurpose {
    /// To hold it.
    Acquire,
    /// To see that nobody holds it.
    Probe,
}

/// Where an attempt on a lock stands: the action that it waits for.
#[derive(Clone, Copy, Debug, PartialEq, Eq, Structural)]
pub enum LockPhase {
    CreatingParent,
    Opening,
    CheckingOpened,
    Locking,
    ReadingOwner,
    CheckingLocked,
    Writing,
    CheckingWritten,
    Ended,
}

/// What the caller does next.
#[derive(Debug, PartialEq, Eq)]
pub enum LockAction {
    /// Create the directory of the lock file.
    CreateParent,
    /// Open the lock file without following a link.
    Open { create: bool },
    /// Look at the file and at its path.
    Inspect,
    /// Lock the file, without waiting.
    Lock,
    /// Read who holds the lock.
    ReadOwner,
    /// Write who holds the lock.
    Write,
    /// The attempt is over.
    Return(LockEnd),
}

/// How an attempt on a lock ended.
#[derive(Debug, PartialEq, Eq)]
pub enum LockEnd {
    Held,
    Unheld,
    Conflict(LockConflict),
}

/// What came of an action.
#[derive(Debug, PartialEq, Eq)]
pub enum LockSeen {
    Done,
    Failed { kind: IoKind, message: String },
    Facts(LockFacts),
    /// What the lock file says of its holder, or why it could not be read.
    Owner(Result<LockMetadata, String>),
}

/// An attempt on a lock.
#[derive(Debug, PartialEq, Eq)]
pub struct LockAttempt {
    pub path: String,
    pub purpose: LockPurpose,
    pub expected_uid: u32,
    pub phase: LockPhase,
}

/// Whether what came of an action can be what came of the one that the attempt waits for.
pub open spec fn fits(attempt: LockAttempt, seen: LockSeen) -> bool {
    match attempt.phase {
        LockPhase::Ended => false,
        LockPhase::ReadingOwner => seen is Owner,
        LockPhase::CheckingOpened
        | LockPhase::CheckingLocked
        | LockPhase::CheckingWritten => seen is Facts || seen is Failed,
        _ => seen is Done || seen is Failed,
    }
}

/// How an attempt goes on.
pub enum LockNext {
    Continue(LockPhase, LockAction),
    Held,
    Unheld,
    /// The lock was not taken; the reason is all that is known.
    Broken(Seq<char>),
    /// Somebody holds the lock.
    Taken(Result<LockMetadata, String>),
}

/// How an attempt goes on.
pub open spec fn next(attempt: LockAttempt, seen: LockSeen) -> LockNext {
    match seen {
        LockSeen::Failed { kind, message } => match attempt.phase {
            LockPhase::Opening => if attempt.purpose == LockPurpose::Probe && kind
                == IoKind::NotFound {
                LockNext::Unheld
            } else {
                LockNext::Broken(message@)
            },
            LockPhase::Locking => if kind == IoKind::WouldBlock {
                LockNext::Continue(LockPhase::ReadingOwner, LockAction::ReadOwner)
            } else {
                LockNext::Broken("advisory lock unavailable: "@ + message@)
            },
            _ => LockNext::Broken(message@),
        },
        LockSeen::Owner(owner) => LockNext::Taken(owner),
        LockSeen::Facts(facts) => match lock_file_error(
            attempt.path@,
            facts,
            attempt.expected_uid,
        ) {
            Some(message) => LockNext::Broken(message),
            None => match attempt.phase {
                LockPhase::CheckingOpened => LockNext::Continue(
                    LockPhase::Locking,
                    LockAction::Lock,
                ),
                LockPhase::CheckingLocked => match attempt.purpose {
                    LockPurpose::Acquire => LockNext::Continue(
                        LockPhase::Writing,
                        LockAction::Write,
                    ),
                    LockPurpose::Probe => LockNext::Unheld,
                },
                _ => LockNext::Held,
            },
        },
        LockSeen::Done => match attempt.phase {
            LockPhase::CreatingParent => LockNext::Continue(
                LockPhase::Opening,
                LockAction::Open { create: true },
            ),
            LockPhase::Opening => LockNext::Continue(
                LockPhase::CheckingOpened,
                LockAction::Inspect,
            ),
            LockPhase::Locking => LockNext::Continue(
                LockPhase::CheckingLocked,
                LockAction::Inspect,
            ),
            _ => LockNext::Continue(LockPhase::CheckingWritten, LockAction::Inspect),
        },
    }
}

/// Whether an attempt went on as it should.
pub open spec fn steps(
    before: LockAttempt,
    seen: LockSeen,
    after: LockAttempt,
    action: LockAction,
) -> bool {
    &&& after == (LockAttempt { phase: after.phase, ..before })
    &&& match next(before, seen) {
        LockNext::Continue(phase, asked) => after.phase == phase && action == asked,
        LockNext::Held => after.phase == LockPhase::Ended && action == LockAction::Return(
            LockEnd::Held,
        ),
        LockNext::Unheld => after.phase == LockPhase::Ended && action == LockAction::Return(
            LockEnd::Unheld,
        ),
        LockNext::Broken(message) => {
            &&& after.phase == LockPhase::Ended
            &&& action matches LockAction::Return(LockEnd::Conflict(conflict)) && {
                &&& conflict.path == before.path
                &&& conflict.metadata is None
                &&& conflict.metadata_error matches Some(error) && error@ == message
            }
        },
        LockNext::Taken(owner) => {
            &&& after.phase == LockPhase::Ended
            &&& action == LockAction::Return(
                LockEnd::Conflict(
                    LockConflict {
                        path: before.path,
                        metadata: match owner {
                            Ok(metadata) => Some(metadata),
                            Err(_) => None,
                        },
                        metadata_error: match owner {
                            Ok(_) => None,
                            Err(error) => Some(error),
                        },
                    },
                ),
            )
        },
    }
}

impl LockAttempt {
    /// Sets out to hold a lock.
    pub fn acquire(path: String, expected_uid: u32) -> (result: (Self, LockAction))
        ensures
            result.0 == (LockAttempt {
                path,
                purpose: LockPurpose::Acquire,
                expected_uid,
                phase: LockPhase::CreatingParent,
            }),
            result.1 == LockAction::CreateParent,
    {
        (
            LockAttempt {
                path,
                purpose: LockPurpose::Acquire,
                expected_uid,
                phase: LockPhase::CreatingParent,
            },
            LockAction::CreateParent,
        )
    }

    /// Sets out to see that nobody holds a lock.
    pub fn probe(path: String, expected_uid: u32) -> (result: (Self, LockAction))
        ensures
            result.0 == (LockAttempt {
                path,
                purpose: LockPurpose::Probe,
                expected_uid,
                phase: LockPhase::Opening,
            }),
            result.1 == (LockAction::Open { create: false }),
    {
        (
            LockAttempt {
                path,
                purpose: LockPurpose::Probe,
                expected_uid,
                phase: LockPhase::Opening,
            },
            LockAction::Open { create: false },
        )
    }

    fn broken(&mut self, message: String) -> (action: LockAction)
        ensures
            *final(self) == (LockAttempt { phase: LockPhase::Ended, ..*old(self) }),
            action matches LockAction::Return(LockEnd::Conflict(conflict)) && {
                &&& conflict.path == old(self).path
                &&& conflict.metadata is None
                &&& conflict.metadata_error == Some(message)
            },
    {
        self.phase = LockPhase::Ended;
        LockAction::Return(
            LockEnd::Conflict(
                LockConflict {
                    path: self.path.clone(),
                    metadata: None,
                    metadata_error: Some(message),
                },
            ),
        )
    }

    /// How the attempt goes on after what was observed of its last action.
    pub fn step(&mut self, seen: LockSeen) -> (action: LockAction)
        requires
            fits(*old(self), seen),
        ensures
            steps(*old(self), seen, *final(self), action),
    {
        match seen {
            LockSeen::Failed { kind, message } => match self.phase {
                LockPhase::Opening => {
                    if self.purpose == LockPurpose::Probe && kind == IoKind::NotFound {
                        self.phase = LockPhase::Ended;
                        LockAction::Return(LockEnd::Unheld)
                    } else {
                        self.broken(message)
                    }
                },
                LockPhase::Locking => {
                    if kind == IoKind::WouldBlock {
                        self.phase = LockPhase::ReadingOwner;
                        LockAction::ReadOwner
                    } else {
                        self.broken(text::concat("advisory lock unavailable: ", message.as_str()))
                    }
                },
                _ => self.broken(message),
            },
            LockSeen::Owner(owner) => {
                self.phase = LockPhase::Ended;
                let path = self.path.clone();
                let conflict = match owner {
                    Ok(metadata) => LockConflict {
                        path,
                        metadata: Some(metadata),
                        metadata_error: None,
                    },
                    Err(error) => LockConflict {
                        path,
                        metadata: None,
                        metadata_error: Some(error),
                    },
                };
                LockAction::Return(LockEnd::Conflict(conflict))
            },
            LockSeen::Facts(facts) => {
                match validate_unix_lock_file(self.path.as_str(), &facts, self.expected_uid) {
                    Err(message) => self.broken(message),
                    Ok(()) => match self.phase {
                        LockPhase::CheckingOpened => {
                            self.phase = LockPhase::Locking;
                            LockAction::Lock
                        },
                        LockPhase::CheckingLocked => match self.purpose {
                            LockPurpose::Acquire => {
                                self.phase = LockPhase::Writing;
                                LockAction::Write
                            },
                            LockPurpose::Probe => {
                                self.phase = LockPhase::Ended;
                                LockAction::Return(LockEnd::Unheld)
                            },
                        },
                        _ => {
                            self.phase = LockPhase::Ended;
                            LockAction::Return(LockEnd::Held)
                        },
                    },
                }
            },
            LockSeen::Done => match self.phase {
                LockPhase::CreatingParent => {
                    self.phase = LockPhase::Opening;
                    LockAction::Open { create: true }
                },
                LockPhase::Opening => {
                    self.phase = LockPhase::CheckingOpened;
                    LockAction::Inspect
                },
                LockPhase::Locking => {
                    self.phase = LockPhase::CheckingLocked;
                    LockAction::Inspect
                },
                _ => {
                    self.phase = LockPhase::CheckingWritten;
                    LockAction::Inspect
                },
            },
        }
    }
}

/// What comes of seeing whether anybody holds a lock.
pub fn ensure_workspace_unlocked(end: LockEnd) -> (result: Result<(), AppError>)
    ensures
        match end {
            LockEnd::Conflict(conflict) => result matches Err(AppError::DaemonLockHeld {
                path,
                owner,
            }) && path == conflict.path && owner@ == owner_text(conflict),
            _ => result is Ok,
        },
{
    match end {
        LockEnd::Conflict(conflict) => Err(lock_conflict_error(conflict)),
        _ => Ok(()),
    }
}

/// An attempt after some observations.
pub open spec fn phase_after(attempt: LockAttempt, seen: Seq<LockSeen>) -> LockPhase
    decreases seen.len(),
{
    if seen.len() == 0 {
        attempt.phase
    } else {
        match next(
            LockAttempt { phase: phase_after(attempt, seen.drop_last()), ..attempt },
            seen.last(),
        ) {
            LockNext::Continue(phase, _) => phase,
            _ => LockPhase::Ended,
        }
    }
}

/// Whether observations can come in this order.
pub open spec fn possible(attempt: LockAttempt, seen: Seq<LockSeen>) -> bool
    decreases seen.len(),
{
    seen.len() == 0 || {
        &&& possible(attempt, seen.drop_last())
        &&& fits(
            LockAttempt { phase: phase_after(attempt, seen.drop_last()), ..attempt },
            seen.last(),
        )
    }
}

/// Whether an observation shows a file that can be the lock.
pub open spec fn shows_good_file(attempt: LockAttempt, seen: LockSeen) -> bool {
    seen matches LockSeen::Facts(facts) && lock_file_error(
        attempt.path@,
        facts,
        attempt.expected_uid,
    ) is None
}

/// Nothing is written to a lock file before it was seen twice to be a good one, once when it was
/// opened and once after it was locked.
pub proof fn nothing_is_written_unchecked(attempt: LockAttempt, seen: Seq<LockSeen>)
    requires
        attempt.purpose == LockPurpose::Acquire,
        attempt.phase == LockPhase::CreatingParent,
        possible(attempt, seen),
        phase_after(attempt, seen) == LockPhase::Writing,
    ensures
        seen.len() == 5,
        shows_good_file(attempt, seen[2]),
        seen[3] is Done,
        shows_good_file(attempt, seen[4]),
{
    lock_phases(attempt, seen);
}

/// A lock counts as held only after it was locked and written, and seen to be a good file before
/// and after each.
pub proof fn a_held_lock_was_checked(attempt: LockAttempt, seen: Seq<LockSeen>, last: LockSeen)
    requires
        attempt.purpose == LockPurpose::Acquire,
        attempt.phase == LockPhase::CreatingParent,
        possible(attempt, seen.push(last)),
        next(LockAttempt { phase: phase_after(attempt, seen), ..attempt }, last) is Held,
    ensures
        seen.len() == 6,
        shows_good_file(attempt, seen[2]),
        seen[3] is Done,
        shows_good_file(attempt, seen[4]),
        seen[5] is Done,
        shows_good_file(attempt, last),
{
    assert(seen.push(last).drop_last() =~= seen);
    lock_phases(attempt, seen);
}

/// What was observed before each phase of an attempt to hold a lock.
proof fn lock_phases(attempt: LockAttempt, seen: Seq<LockSeen>)
    requires
        attempt.purpose == LockPurpose::Acquire,
        attempt.phase == LockPhase::CreatingParent,
        possible(attempt, seen),
    ensures
        ({
            let phase = phase_after(attempt, seen);
            &&& phase == LockPhase::CreatingParent ==> seen.len() == 0
            &&& phase == LockPhase::Opening ==> seen.len() == 1
            &&& phase == LockPhase::CheckingOpened ==> seen.len() == 2
            &&& phase == LockPhase::Locking ==> seen.len() == 3 && shows_good_file(
                attempt,
                seen[2],
            )
            &&& phase == LockPhase::CheckingLocked ==> seen.len() == 4 && shows_good_file(
                attempt,
                seen[2],
            ) && seen[3] is Done
            &&& phase == LockPhase::Writing ==> seen.len() == 5 && shows_good_file(
                attempt,
                seen[2],
            ) && seen[3] is Done && shows_good_file(attempt, seen[4])
            &&& phase == LockPhase::CheckingWritten ==> seen.len() == 6 && shows_good_file(
                attempt,
                seen[2],
            ) && seen[3] is Done && shows_good_file(attempt, seen[4]) && seen[5] is Done
        }),
    decreases seen.len(),
{
    if seen.len() > 0 {
        lock_phases(attempt, seen.drop_last());
    }
}

/// A lock file on a system that keeps to its word: whether it is there and locked, what the system
/// knows of it, what it says of its holder, and the system's words for a refusal.
pub struct LockFile {
    pub exists: bool,
    pub locked: bool,
    pub facts: LockFacts,
    pub owner: Result<LockMetadata, String>,
    pub refusal: String,
}

/// What comes of an action on a lock file, and the file after it. `metadata` is what would be
/// written.
pub open spec fn performed(file: LockFile, action: LockAction, metadata: LockMetadata) -> (
    LockFile,
    LockSeen,
) {
    match action {
        LockAction::Open { create } => if file.exists || create {
            (LockFile { exists: true, ..file }, LockSeen::Done)
        } else {
            (file, LockSeen::Failed { kind: IoKind::NotFound, message: file.refusal })
        },
        LockAction::Inspect => (file, LockSeen::Facts(file.facts)),
        LockAction::Lock => if file.locked {
            (file, LockSeen::Failed { kind: IoKind::WouldBlock, message: file.refusal })
        } else {
            (LockFile { locked: true, ..file }, LockSeen::Done)
        },
        LockAction::ReadOwner => (file, LockSeen::Owner(file.owner)),
        LockAction::Write => (LockFile { owner: Ok(metadata), ..file }, LockSeen::Done),
        _ => (file, LockSeen::Done),
    }
}

/// The course of an attempt that has asked for an action, for so many more actions: how the file
/// is left, and how the attempt ends.
pub open spec fn course(
    attempt: LockAttempt,
    action: LockAction,
    file: LockFile,
    metadata: LockMetadata,
    more: nat,
) -> (LockFile, LockNext)
    decreases more,
{
    let (after, seen) = performed(file, action, metadata);
    match next(attempt, seen) {
        LockNext::Continue(phase, asked) => if more > 0 {
            course(
                LockAttempt { phase, ..attempt },
                asked,
                after,
                metadata,
                (more - 1) as nat,
            )
        } else {
            (after, LockNext::Continue(phase, asked))
        },
        end => (after, end),
    }
}

/// The most actions that an attempt takes after its first.
pub const MOST_FURTHER_ACTIONS: u8 = 6;

/// The course of an attempt to hold a lock.
pub open spec fn acquiring(
    path: String,
    expected_uid: u32,
    file: LockFile,
    metadata: LockMetadata,
) -> (LockFile, LockNext) {
    course(
        LockAttempt {
            path,
            purpose: LockPurpose::Acquire,
            expected_uid,
            phase: LockPhase::CreatingParent,
        },
        LockAction::CreateParent,
        file,
        metadata,
        MOST_FURTHER_ACTIONS as nat,
    )
}

/// The course of an attempt to see that nobody holds a lock, which writes nothing.
pub open spec fn probing(path: String, expected_uid: u32, file: LockFile, unused: LockMetadata) -> (
    LockFile,
    LockNext,
) {
    course(
        LockAttempt {
            path,
            purpose: LockPurpose::Probe,
            expected_uid,
            phase: LockPhase::Opening,
        },
        LockAction::Open { create: false },
        file,
        unused,
        MOST_FURTHER_ACTIONS as nat,
    )
}

/// A lock file after the one that had it locked let go of it.
pub open spec fn released(file: LockFile) -> LockFile {
    LockFile { locked: false, ..file }
}

/// A lock is held by one at a time. The first to ask for it gets it and is named in the file; while
/// it holds the lock, whoever asks or looks is told of it and changes nothing; and once it has let
/// go, the next one gets the same file and is named in it.
pub proof fn a_lock_has_one_holder(
    path: String,
    expected_uid: u32,
    file: LockFile,
    first: LockMetadata,
    second: LockMetadata,
)
    requires
        !file.locked,
        lock_file_error(path@, file.facts, expected_uid) is None,
    ensures
        ({
            let (held, end) = acquiring(path, expected_uid, file, first);
            let free = released(held);
            &&& end is Held
            &&& held == (LockFile { exists: true, locked: true, owner: Ok(first), ..file })
            &&& acquiring(path, expected_uid, held, second) == (held, LockNext::Taken(Ok(first)))
            &&& probing(path, expected_uid, held, second) == (held, LockNext::Taken(Ok(first)))
            &&& probing(path, expected_uid, free, second) == (held, LockNext::Unheld)
            &&& acquiring(path, expected_uid, free, second) == (
                LockFile { owner: Ok(second), ..held },
                LockNext::Held,
            )
        }),
{
    reveal_with_fuel(course, 8);
}

/// Looking whether a lock is held finds it free where there is no file, and creates none.
pub proof fn looking_creates_no_lock(
    path: String,
    expected_uid: u32,
    file: LockFile,
    unused: LockMetadata,
)
    requires
        !file.exists,
    ensures
        probing(path, expected_uid, file, unused) == (file, LockNext::Unheld),
{
}

} // verus!
