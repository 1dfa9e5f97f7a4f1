//! Changing the settings cache under its lock: the state machine that takes
//! the lock, loads the cache, merges the change, commits the result and
//! releases the lock, whatever went wrong on the way.
//!
//! The machine decides; it touches nothing. Whoever runs it performs the
//! pending action on the file system and hands back how it came out:
//!
//! ```text
//! Idle --begin--> LockWait --created--> Loading --read--> Committing
//!                    |  ^                  |                  |
//!                    |  '--held, wait      '--unreadable--.   | done
//!                    |                                    v   v
//!                    '--timed out, failed--> Released <-- Releasing
//! ```

use crate::cache::{cache_loaded, load_cache, merge, merged, Cache, CachePatch, patch_reads};
use crate::commit::{awaited, committed, Commit, CommitAction, CommitEvent};
use crate::error::StoreError;
use crate::found::Found;
use crate::layout::{data_dir, data_path, RelPath};
use crate::lock::{acquire, lock_step, Attempt, LockPolicy, LockStep};
use vstd::prelude::*;

verus! {

/// What is to become of the cache.
#[derive(Clone, Debug, PartialEq, Eq)]
pub enum Change {
    /// Merge this patch into the cache as it is found.
    Patch(CachePatch),
    /// Put this cache in the place of whatever is found.
    Replace(Cache),
}

/// What whoever touches the file system is asked to do for an update.
#[derive(Clone, Copy, Debug, PartialEq, Eq, Structural)]
pub enum Action {
    /// Sleep for `delay_ms` milliseconds, then try to create the marker of
    /// the lock, which succeeds only where the marker does not exist.
    TryLock { delay_ms: u64 },
    /// Read the cache and decode it.
    ReadDocument,
    /// Do this for the commit of the new content, which `Update::content`
    /// gives.
    Commit(CommitAction),
    /// Remove the marker of the lock; that it is gone already is no failure.
    Unlock,
}

/// What happened: the request itself, or how the pending action came out.
#[derive(Clone, Debug, PartialEq, Eq)]
pub enum Event {
    /// The update was asked for.
    Begin,
    /// How the attempt to create the marker came out.
    Lock(Attempt),
    /// What was found at the place of the cache.
    Read(Found<Cache>),
    /// How an action of the commit came out.
    Commit(CommitEvent),
    /// The marker is removed, or was gone already.
    Unlocked,
}

/// Where an update stands.
#[derive(Debug, PartialEq, Eq)]
pub enum Phase {
    /// Nothing has been done.
    Idle { change: Change },
    /// The lock is being asked for. `waited_ms` is the time slept between
    /// the attempts so far.
    LockWait { change: Change, waited_ms: u64 },
    /// The lock is held, and the cache is being read.
    Loading { patch: CachePatch },
    /// The lock is held, the new content is settled, and its commit is
    /// under way.
    Committing { next: Cache, commit: Commit },
    /// The work under the lock has ended, and the lock is being released.
    Releasing { outcome: Result<(), StoreError> },
    /// The update has ended, and the lock is not held.
    Released { outcome: Result<(), StoreError> },
}

/// An update of the settings cache: the policy of its lock, and where it
/// stands.
#[derive(Debug, PartialEq, Eq)]
pub struct Update {
    pub policy: LockPolicy,
    pub phase: Phase,
}

/// The sleep before the next attempt of a caller that has slept for `waited`
/// so far: none before the first attempt, the interval of the policy before
/// every other.
pub open spec fn delay_before(policy: LockPolicy, waited: u64) -> u64 {
    if waited == 0 {
        0
    } else {
        policy.poll_interval()
    }
}

/// What an update in the phase `phase` waits for.
pub open spec fn pending_of(policy: LockPolicy, phase: Phase) -> Option<Action> {
    match phase {
        Phase::Idle { .. } => None,
        Phase::LockWait { waited_ms, .. } => Some(
            Action::TryLock { delay_ms: delay_before(policy, waited_ms) },
        ),
        Phase::Loading { .. } => Some(Action::ReadDocument),
        Phase::Committing { commit, .. } => match awaited(commit) {
            Some(action) => Some(Action::Commit(action)),
            None => None,
        },
        Phase::Releasing { .. } => Some(Action::Unlock),
        Phase::Released { .. } => None,
    }
}

/// Whether the update holds the lock in the phase `phase`.
pub open spec fn holds_lock(phase: Phase) -> bool {
    phase is Loading || phase is Committing || phase is Releasing
}

/// The phase in which the work under the lock begins.
pub open spec fn granted(change: Change) -> Phase {
    match change {
        Change::Patch(patch) => Phase::Loading { patch },
        Change::Replace(cache) => Phase::Committing { next: cache, commit: Commit::Writing },
    }
}

/// The phase after a commit of `next` has reached `commit`.
pub open spec fn committing(next: Cache, commit: Commit) -> Phase {
    match commit {
        Commit::Done(outcome) => Phase::Releasing { outcome },
        _ => Phase::Committing { next, commit },
    }
}

/// The phase after `event`. An event that does not answer what the update
/// waits for changes nothing.
pub open spec fn advanced(policy: LockPolicy, phase: Phase, event: Event) -> Phase {
    match (phase, event) {
        (Phase::Idle { change }, Event::Begin) => Phase::LockWait { change, waited_ms: 0 },
        (Phase::LockWait { change, waited_ms }, Event::Lock(attempt)) => match lock_step(
            policy,
            waited_ms,
            attempt,
        ) {
            LockStep::Granted => granted(change),
            LockStep::Retry { waited_ms } => Phase::LockWait { change, waited_ms },
            LockStep::TimedOut => Phase::Released { outcome: Err(StoreError::LockTimeout) },
            LockStep::Failed(error) => Phase::Released { outcome: Err(error) },
        },
        (Phase::Loading { patch }, Event::Read(found)) => match cache_loaded(found) {
            Ok(current) => Phase::Committing {
                next: merged(current, patch),
                commit: Commit::Writing,
            },
            Err(error) => Phase::Releasing { outcome: Err(error) },
        },
        (Phase::Committing { next, commit }, Event::Commit(event)) => committing(
            next,
            committed(commit, event),
        ),
        (Phase::Releasing { outcome }, Event::Unlocked) => Phase::Released { outcome },
        (phase, _) => phase,
    }
}

impl Update {
    /// What is to be done next, or `None` where nothing is: before the
    /// update has begun, and after it has ended.
    pub fn pending(&self) -> (action: Option<Action>)
        ensures
            action == pending_of(self.policy, self.phase),
    {
        match &self.phase {
            Phase::Idle { .. } => None,
            Phase::LockWait { waited_ms, .. } => {
                let delay_ms = if *waited_ms == 0 {
                    0
                } else {
                    self.policy.poll_interval_ms()
                };
                Some(Action::TryLock { delay_ms })
            },
            Phase::Loading { .. } => Some(Action::ReadDocument),
            Phase::Committing { commit, .. } => match commit.pending() {
                Some(action) => Some(Action::Commit(action)),
                None => None,
            },
            Phase::Releasing { .. } => Some(Action::Unlock),
            Phase::Released { .. } => None,
        }
    }

    /// The content that the commit writes, once it is settled.
    pub fn content(&self) -> (next: Option<&Cache>)
        ensures
            match self.phase {
                Phase::Committing { next: settled, .. } => next == Some(&settled),
                _ => next is None,
            },
    {
        match &self.phase {
            Phase::Committing { next, .. } => Some(next),
            _ => None,
        }
    }

    /// How the update ended, or `None` while it has not.
    pub fn outcome(&self) -> (r: Option<&Result<(), StoreError>>)
        ensures
            match self.phase {
                Phase::Released { outcome } => r == Some(&outcome),
                _ => r is None,
            },
    {
        match &self.phase {
            Phase::Released { outcome } => Some(outcome),
            _ => None,
        }
    }

    /// The update after `event`: the same policy, and the phase that
    /// `advanced` gives. Once the lock is held the update cannot end but
    /// through its release.
    pub fn advance(self, event: Event) -> (next: Update)
        ensures
            next.policy == self.policy,
            next.phase == advanced(self.policy, self.phase, event),
    {
        let policy = self.policy;
        let phase = match (self.phase, event) {
            (Phase::Idle { change }, Event::Begin) => Phase::LockWait { change, waited_ms: 0 },
            (Phase::LockWait { change, waited_ms }, Event::Lock(attempt)) => match acquire(
                &policy,
                waited_ms,
                attempt,
            ) {
                LockStep::Granted => match change {
                    Change::Patch(patch) => Phase::Loading { patch },
                    Change::Replace(cache) => Phase::Committing {
                        next: cache,
                        commit: Commit::begin(),
                    },
                },
                LockStep::Retry { waited_ms } => Phase::LockWait { change, waited_ms },
                LockStep::TimedOut => Phase::Released { outcome: Err(StoreError::LockTimeout) },
                LockStep::Failed(error) => Phase::Released { outcome: Err(error) },
            },
            (Phase::Loading { patch }, Event::Read(found)) => match load_cache(found) {
                Ok(current) => Phase::Committing {
                    next: merge(current, patch),
                    commit: Commit::begin(),
                },
                Err(error) => Phase::Releasing { outcome: Err(error) },
            },
            (Phase::Committing { next, commit }, Event::Commit(event)) => match commit.advance(
                event,
            ) {
                Commit::Done(outcome) => Phase::Releasing { outcome },
                commit => Phase::Committing { next, commit },
            },
            (Phase::Releasing { outcome }, Event::Unlocked) => Phase::Released { outcome },
            (phase, _) => phase,
        };
        Update { policy, phase }
    }
}

/// An update that merges the patch document `patch` into the settings
/// cache, under the lock that `policy` describes. Nothing has been done
/// yet: the update begins with `Event::Begin`.
pub fn update_cache(patch: &serde_json::Value, policy: LockPolicy) -> (update: Update)
    ensures
        update.policy == policy,
        update.phase matches Phase::Idle { change: Change::Patch(read) } && patch_reads(
            read,
            *patch,
        ),
{
    Update { policy, phase: Phase::Idle { change: Change::Patch(CachePatch::from_value(patch)) } }
}

/// An update that puts `cache` in the place of the settings cache, under
/// the same lock and by the same commit as a patch. Nothing has been done
/// yet: the update begins with `Event::Begin`.
pub fn save_cache(cache: Cache, policy: LockPolicy) -> (update: Update)
    ensures
        update == (Update { policy, phase: Phase::Idle { change: Change::Replace(cache) } }),
{
    Update { policy, phase: Phase::Idle { change: Change::Replace(cache) } }
}

/// The file that clearing the cache `file_name` removes: the file of that
/// name in the data directory. That it is absent already is no failure.
pub fn clear_cache(file_name: &str) -> (path: RelPath)
    ensures
        path@ == data_path().push(file_name@),
{
    data_dir().child(file_name.to_string())
}

} // verus!
