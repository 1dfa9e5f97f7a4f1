//! The advisory lock on a document: a marker file that only one holder can
//! create, and the bounded wait of whoever finds it taken.

use crate::error::StoreError;
use vstd::prelude::*;

verus! {

/// How long to wait for a lock, and how long to sleep between two attempts
/// to take it. The interval is never zero.
#[derive(Clone, Copy, Debug, PartialEq, Eq)]
pub struct LockPolicy {
    timeout_ms: u64,
    poll_interval_ms: u64,
}

/// How an attempt to create the marker came out.
#[derive(Clone, Debug, PartialEq, Eq)]
pub enum Attempt {
    /// The marker did not exist and was created: the lock is taken.
    Created,
    /// The marker exists already: someone else holds the lock.
    Held,
    /// The marker could not be created for another reason, which the text
    /// gives.
    Failed(String),
}

/// What follows from an attempt to create the marker.
#[derive(Clone, Debug, PartialEq, Eq)]
pub enum LockStep {
    /// The lock is held now. It must be released whatever happens next.
    Granted,
    /// The lock is held by someone else: sleep for the interval of the
    /// policy and try again. `waited_ms` is the time slept then, all told.
    Retry { waited_ms: u64 },
    /// The lock was held by someone else until the deadline passed.
    TimedOut,
    /// The file system refused. There is no lock to release.
    Failed(StoreError),
}

/// The time slept after one more sleep of `interval`, which stays at the
/// greatest number that fits.
pub open spec fn slept(waited: u64, interval: u64) -> u64 {
    if waited + interval > u64::MAX {
        u64::MAX
    } else {
        (waited + interval) as u64
    }
}

/// What follows from `attempt` for a caller that has slept for `waited`
/// so far. The deadline has passed when the time slept has reached the
/// timeout.
pub open spec fn lock_step(policy: LockPolicy, waited: u64, attempt: Attempt) -> LockStep {
    match attempt {
        Attempt::Created => LockStep::Granted,
        Attempt::Held => if waited >= policy.timeout() {
            LockStep::TimedOut
        } else {
            LockStep::Retry { waited_ms: slept(waited, policy.poll_interval()) }
        },
        Attempt::Failed(text) => LockStep::Failed(StoreError::Io(text)),
    }
}

impl LockPolicy {
    #[verifier::type_invariant]
    spec fn interval_is_positive(self) -> bool {
        self.poll_interval_ms > 0
    }

    /// The time after which a caller gives up, in milliseconds.
    pub closed spec fn timeout(self) -> u64 {
        self.timeout_ms
    }

    /// The time that a caller sleeps between two attempts, in milliseconds.
    pub closed spec fn poll_interval(self) -> u64 {
        self.poll_interval_ms
    }

    /// What holds of every policy that `new` or `standard` made.
    pub open spec fn well_formed(self) -> bool {
        self.poll_interval() > 0
    }

    /// The policy with the given timeout and interval, in milliseconds.
    /// There is none with an interval of zero: its wait would never end.
    pub fn new(timeout_ms: u64, poll_interval_ms: u64) -> (policy: Option<LockPolicy>)
        ensures
            match policy {
                Some(p) => p.timeout() == timeout_ms && p.poll_interval() == poll_interval_ms
                    && p.well_formed(),
                None => poll_interval_ms == 0,
            },
    {
        if poll_interval_ms == 0 {
            None
        } else {
            Some(LockPolicy { timeout_ms, poll_interval_ms })
        }
    }

    /// The policy of the settings cache: give up after two seconds, and try
    /// every twenty milliseconds.
    pub fn standard() -> (policy: LockPolicy)
        ensures
            policy.timeout() == 2000,
            policy.poll_interval() == 20,
            policy.well_formed(),
    {
        LockPolicy { timeout_ms: 2000, poll_interval_ms: 20 }
    }

    /// The time after which a caller gives up, in milliseconds.
    pub fn timeout_ms(&self) -> (ms: u64)
        ensures
            ms == self.timeout(),
    {
        self.timeout_ms
    }

    /// The time that a caller sleeps between two attempts, in milliseconds.
    /// Never zero.
    pub fn poll_interval_ms(&self) -> (ms: u64)
        ensures
            ms == self.poll_interval(),
            self.well_formed(),
    {
        proof {
            use_type_invariant(self);
        }
        self.poll_interval_ms
    }
}

impl Default for LockPolicy {
    fn default() -> (policy: LockPolicy)
        ensures
            policy.timeout() == 2000,
            policy.poll_interval() == 20,
    {
        LockPolicy::standard()
    }
}

/// Decides what follows from an attempt to create the marker of a lock, for
/// a caller that has slept for `waited_ms` between its attempts so far.
/// A marker that was created grants the lock. A marker that exists already
/// means waiting, until the time slept has reached the timeout of the
/// policy: then the caller gives up. Any other failure ends the attempt at
/// once.
pub fn acquire(policy: &LockPolicy, waited_ms: u64, attempt: Attempt) -> (step: LockStep)
    ensures
        step == lock_step(*policy, waited_ms, attempt),
{
    match attempt {
        Attempt::Created => LockStep::Granted,
        Attempt::Held => {
            if waited_ms >= policy.timeout_ms() {
                LockStep::TimedOut
            } else {
                LockStep::Retry { waited_ms: waited_ms.saturating_add(policy.poll_interval_ms()) }
            }
        },
        Attempt::Failed(text) => LockStep::Failed(StoreError::Io(text)),
    }
}

} // verus!
