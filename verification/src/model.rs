//! What holds of every run of a commit and of an update, stated over a
//! model of the files they touch: the document, the temporary file beside
//! it, and the marker of the lock.
//!
//! The model says what each action does to the files when it comes out as
//! an event tells, and which events can be the true outcome of an action.
//! It takes for granted that a document which was written in full is read
//! back as the value that was written.

use crate::cache::{cache_loaded, empty_cache, merged, Cache};
use crate::commit::{answers, awaited, committed, Commit, CommitAction, CommitEvent};
use crate::error::StoreError;
use crate::found::Found;
use crate::lock::{Attempt, LockPolicy};
use crate::update::{advanced, holds_lock, pending_of, Action, Change, Event, Phase};
use vstd::prelude::*;

verus! {

/// What a file holds, as far as a reader can tell.
pub enum Slot<D> {
    /// There is no such file.
    Absent,
    /// The file holds part of a content, or anything else that is no
    /// document.
    Torn,
    /// The file holds this content, whole.
    Whole(D),
}

/// The files that a commit and an update touch.
pub struct Store<D> {
    /// The document itself.
    pub document: Slot<D>,
    /// The temporary file beside the document.
    pub temp: Slot<D>,
    /// Whether the marker of the lock exists.
    pub locked: bool,
}

/// The files after `action` of a commit of `content` came out as `event`
/// tells. An event that does not answer the action changes nothing.
pub open spec fn after_commit_action<D>(
    store: Store<D>,
    action: CommitAction,
    event: CommitEvent,
    content: D,
) -> Store<D> {
    match (action, event) {
        (CommitAction::WriteTemp, CommitEvent::TempWritten { flushed }) => Store {
            document: store.document,
            temp: Slot::Whole(content),
            locked: store.locked,
        },
        (CommitAction::WriteTemp, CommitEvent::WriteFailed(_)) => Store {
            document: store.document,
            temp: Slot::Torn,
            locked: store.locked,
        },
        (CommitAction::RemoveFinal, CommitEvent::FinalCleared { gone }) => if gone {
            Store { document: Slot::Absent, temp: store.temp, locked: store.locked }
        } else {
            store
        },
        (CommitAction::Rename, CommitEvent::Renamed) => Store {
            document: store.temp,
            temp: Slot::Absent,
            locked: store.locked,
        },
        _ => store,
    }
}

/// Where a commit of `content` stands, and what the files hold, after the
/// events `events` in their order, begun on the files `store`.
pub open spec fn commit_run<D>(content: D, store: Store<D>, events: Seq<CommitEvent>) -> (
    Commit,
    Store<D>,
)
    decreases events.len(),
{
    if events.len() == 0 {
        (Commit::Writing, store)
    } else {
        let (state, before) = commit_run(content, store, events.drop_last());
        match awaited(state) {
            Some(action) => (
                committed(state, events.last()),
                after_commit_action(before, action, events.last(), content),
            ),
            None => (state, before),
        }
    }
}

/// What holds of a commit of `content` that stands at `state`, of the files
/// `now`, where the document was `initial` when the commit began.
pub open spec fn commit_holds<D>(content: D, initial: Slot<D>, state: Commit, now: Store<D>) -> bool {
    &&& !(now.document is Torn)
    &&& state is Writing || state is Clearing ==> now.document == initial
    &&& state is Clearing || state is Renaming ==> now.temp == Slot::Whole(content)
    &&& state is Renaming ==> now.document == initial || now.document is Absent
    &&& state == Commit::Done(Ok(())) ==> now.document == Slot::Whole(content)
    &&& state matches Commit::Done(Err(_)) ==> now.document == initial || now.document is Absent
}

/// A commit is atomic. Whatever events come, and wherever the run is cut
/// short: the document never holds a torn content. Until the removal it
/// holds what it held when the commit began; between the removal and the
/// rename it holds that or is absent; the temporary file is whole before it
/// is renamed; and a commit that ended well has left the new content, whole.
pub proof fn law_commit_is_atomic<D>(content: D, store: Store<D>, events: Seq<CommitEvent>)
    requires
        !(store.document is Torn),
    ensures
        commit_holds(
            content,
            store.document,
            commit_run(content, store, events).0,
            commit_run(content, store, events).1,
        ),
    decreases events.len(),
{
    if events.len() > 0 {
        law_commit_is_atomic(content, store, events.drop_last());
    }
}

/// The cache that a reader takes a slot for: what it holds where that is a
/// whole cache, and the empty cache otherwise.
pub open spec fn value_of(slot: Slot<Cache>) -> Cache {
    match slot {
        Slot::Whole(cache) => cache,
        _ => empty_cache(),
    }
}

/// Whether `found` is what a reader finds at `slot`, or a failure to read,
/// which can always happen.
pub open spec fn found_at(slot: Slot<Cache>, found: Found<Cache>) -> bool {
    match found {
        Found::Absent => slot is Absent,
        Found::Unreadable(_) => true,
        Found::Corrupt(_) => slot is Torn,
        Found::Present(cache) => slot == Slot::Whole(cache),
    }
}

/// Whether `event` can be the true outcome of `action` on the files
/// `store`. The marker is created only where it does not exist, and found
/// to exist only where it does.
pub open spec fn truthful(store: Store<Cache>, action: Action, event: Event) -> bool {
    match (action, event) {
        (Action::TryLock { delay_ms }, Event::Lock(Attempt::Created)) => !store.locked,
        (Action::TryLock { delay_ms }, Event::Lock(Attempt::Held)) => store.locked,
        (Action::TryLock { delay_ms }, Event::Lock(Attempt::Failed(_))) => true,
        (Action::ReadDocument, Event::Read(found)) => found_at(store.document, found),
        (Action::Commit(action), Event::Commit(event)) => answers(action, event),
        (Action::Unlock, Event::Unlocked) => true,
        _ => false,
    }
}

/// The content that an update in the phase `phase` commits.
pub open spec fn content_of(phase: Phase) -> Cache {
    match phase {
        Phase::Committing { next, .. } => next,
        _ => empty_cache(),
    }
}

/// The files after `action` of an update came out as `event` tells, where
/// the update commits `content`.
pub open spec fn after_action(
    store: Store<Cache>,
    action: Action,
    event: Event,
    content: Cache,
) -> Store<Cache> {
    match (action, event) {
        (Action::TryLock { delay_ms }, Event::Lock(Attempt::Created)) => Store {
            document: store.document,
            temp: store.temp,
            locked: true,
        },
        (Action::Commit(action), Event::Commit(event)) => after_commit_action(
            store,
            action,
            event,
            content,
        ),
        (Action::Unlock, Event::Unlocked) => Store {
            document: store.document,
            temp: store.temp,
            locked: false,
        },
        _ => store,
    }
}

/// The files after an update in the phase `phase` met `event`.
pub open spec fn files_after(
    policy: LockPolicy,
    phase: Phase,
    store: Store<Cache>,
    event: Event,
) -> Store<Cache> {
    match pending_of(policy, phase) {
        Some(action) => after_action(store, action, event, content_of(phase)),
        None => store,
    }
}

/// Whether `event` can come to an update in the phase `phase` on the files
/// `store`: it is the true outcome of what the update waits for, or the
/// update waits for nothing.
pub open spec fn can_come(
    policy: LockPolicy,
    phase: Phase,
    store: Store<Cache>,
    event: Event,
) -> bool {
    match pending_of(policy, phase) {
        Some(action) => truthful(store, action, event),
        None => true,
    }
}

/// Where an update of `change` stands, and what the files hold, after the
/// events `events` in their order, begun on the files `store`.
pub open spec fn run(
    policy: LockPolicy,
    change: Change,
    store: Store<Cache>,
    events: Seq<Event>,
) -> (Phase, Store<Cache>)
    decreases events.len(),
{
    if events.len() == 0 {
        (Phase::Idle { change }, store)
    } else {
        let (phase, before) = run(policy, change, store, events.drop_last());
        (
            advanced(policy, phase, events.last()),
            files_after(policy, phase, before, events.last()),
        )
    }
}

/// Whether each of `events` could come when it came, in the run of an
/// update of `change` begun on the files `store`.
pub open spec fn honest(
    policy: LockPolicy,
    change: Change,
    store: Store<Cache>,
    events: Seq<Event>,
) -> bool
    decreases events.len(),
{
    events.len() == 0 || {
        let (phase, before) = run(policy, change, store, events.drop_last());
        &&& honest(policy, change, store, events.drop_last())
        &&& can_come(policy, phase, before, events.last())
    }
}

/// The cache that an update of `change` leaves where it found `initial`.
pub open spec fn target(change: Change, initial: Slot<Cache>) -> Cache {
    match change {
        Change::Patch(patch) => merged(value_of(initial), patch),
        Change::Replace(cache) => cache,
    }
}

/// What holds of an update of `change` that stands at `phase`, of the files
/// `now`, where the files were `initial` when the update began.
pub open spec fn update_holds(
    change: Change,
    initial: Store<Cache>,
    phase: Phase,
    now: Store<Cache>,
) -> bool {
    &&& !(now.document is Torn)
    &&& holds_lock(phase) ==> now.locked && !initial.locked
    &&& !holds_lock(phase) ==> now.locked == initial.locked
    &&& phase matches Phase::Idle { change: c } ==> c == change && now == initial
    &&& phase matches Phase::LockWait { change: c, .. } ==> c == change && now == initial
    &&& phase matches Phase::Loading { patch } ==> change == Change::Patch(patch) && now.document
        == initial.document
    &&& phase matches Phase::Committing { next, commit } ==> {
        &&& next == target(change, initial.document)
        &&& !(commit is Done)
        &&& commit_holds(next, initial.document, commit, now)
    }
    &&& phase matches Phase::Releasing { outcome: Ok(_) } ==> now.document == Slot::Whole(
        target(change, initial.document),
    )
    &&& phase matches Phase::Released { outcome: Ok(_) } ==> now.document == Slot::Whole(
        target(change, initial.document),
    )
    &&& phase matches Phase::Releasing { outcome: Err(error) } ==> error is Io
    &&& phase matches Phase::Released { outcome: Err(StoreError::LockTimeout) } ==> now
        == initial
}

/// One event that can come leaves standing what holds of an update.
proof fn lemma_update_step(
    policy: LockPolicy,
    change: Change,
    initial: Store<Cache>,
    phase: Phase,
    before: Store<Cache>,
    event: Event,
)
    requires
        !(initial.document is Torn),
        update_holds(change, initial, phase, before),
        can_come(policy, phase, before, event),
    ensures
        update_holds(
            change,
            initial,
            advanced(policy, phase, event),
            files_after(policy, phase, before, event),
        ),
{
    let next = advanced(policy, phase, event);
    let now = files_after(policy, phase, before, event);
    match phase {
        Phase::Idle { change: c } => {},
        Phase::LockWait { change: c, waited_ms } => {},
        Phase::Loading { patch } => {
            match event {
                Event::Read(found) => {
                    assert(found_at(before.document, found));
                    match found {
                        Found::Present(cache) => {
                            assert(value_of(initial.document) == cache);
                        },
                        _ => {},
                    }
                },
                _ => {},
            }
        },
        Phase::Committing { next: content, commit } => {
            match event {
                Event::Commit(inner) => {
                    let action = awaited(commit)->0;
                    assert(answers(action, inner));
                    assert(now == after_commit_action(before, action, inner, content));
                    assert(commit_holds(
                        content,
                        initial.document,
                        committed(commit, inner),
                        now,
                    ));
                },
                _ => {},
            }
        },
        Phase::Releasing { outcome } => {},
        Phase::Released { outcome } => {},
    }
}

/// An update keeps its promises in every run in which the events are true.
/// The document never holds a torn content. The marker of the lock exists
/// while the update holds the lock, and is as it was found whenever it does
/// not: an update that took the lock has released it when it ends, however
/// it ends. Nothing is changed before the lock is held. An update that
/// ended well has left the cache that the change asks for: the given cache
/// for a replacement, so that it is read back as it was saved, and the
/// cache found with the patch merged into it for a patch. An update that
/// gave up waiting has changed nothing.
pub proof fn law_update_keeps_its_promises(
    policy: LockPolicy,
    change: Change,
    store: Store<Cache>,
    events: Seq<Event>,
)
    requires
        !(store.document is Torn),
        honest(policy, change, store, events),
    ensures
        update_holds(
            change,
            store,
            run(policy, change, store, events).0,
            run(policy, change, store, events).1,
        ),
    decreases events.len(),
{
    if events.len() > 0 {
        law_update_keeps_its_promises(policy, change, store, events.drop_last());
        let (phase, before) = run(policy, change, store, events.drop_last());
        lemma_update_step(policy, change, store, phase, before, events.last());
    }
}

/// A cache that was saved is loaded as it was saved: after an update that
/// replaced the cache by `cache` has ended well, what a reader finds at the
/// document loads as `cache`.
pub proof fn law_saved_cache_is_loaded(
    policy: LockPolicy,
    cache: Cache,
    store: Store<Cache>,
    events: Seq<Event>,
    found: Found<Cache>,
)
    requires
        !(store.document is Torn),
        honest(policy, Change::Replace(cache), store, events),
        run(policy, Change::Replace(cache), store, events).0 == (Phase::Released {
            outcome: Ok(()),
        }),
        found_at(run(policy, Change::Replace(cache), store, events).1.document, found),
        !(found is Unreadable),
    ensures
        cache_loaded(found) == Ok::<Cache, StoreError>(cache),
{
    law_update_keeps_its_promises(policy, Change::Replace(cache), store, events);
}

/// An update never stalls. Whatever events come, true or not: an update
/// that waits for nothing has either not begun or ended, and one to which
/// `Begin` has come has begun. So whoever performs what is pending until
/// nothing is, has run the update to its end.
pub proof fn law_update_never_stalls(
    policy: LockPolicy,
    change: Change,
    store: Store<Cache>,
    events: Seq<Event>,
)
    ensures
        ({
            let phase = run(policy, change, store, events).0;
            &&& pending_of(policy, phase) is None ==> phase is Idle || phase is Released
            &&& phase is Idle ==> !events.contains(Event::Begin)
            &&& phase matches Phase::Committing { commit, .. } ==> !(commit is Done)
        }),
    decreases events.len(),
{
    if events.len() > 0 {
        law_update_never_stalls(policy, change, store, events.drop_last());
        let before = run(policy, change, store, events.drop_last()).0;
        if advanced(policy, before, events.last()) is Idle {
            assert forall|i: int| 0 <= i < events.len() implies events[i] != Event::Begin by {
                if i < events.len() - 1 {
                    assert(events.drop_last()[i] == events[i]);
                }
            }
        }
    }
}

/// The events that come to a caller who finds the lock held `times` times
/// in a row.
pub open spec fn finding_held(times: nat) -> Seq<Event> {
    seq![Event::Begin] + Seq::new(times, |i: int| Event::Lock(Attempt::Held))
}

/// The time that a caller has slept after `sleeps` sleeps, which stays at
/// the greatest number that fits.
pub open spec fn time_slept(policy: LockPolicy, sleeps: nat) -> u64 {
    if sleeps * policy.poll_interval() > u64::MAX {
        u64::MAX
    } else {
        (sleeps * policy.poll_interval()) as u64
    }
}

/// Whether a caller who found the lock held `times` times has given up:
/// whether it had slept for the timeout or longer before the last of them.
pub open spec fn has_given_up(policy: LockPolicy, times: nat) -> bool {
    times >= 1 && (times - 1) * policy.poll_interval() >= policy.timeout()
}

/// A lock that is never released makes its callers give up. A caller who
/// finds the lock held at every attempt sleeps for the interval of the
/// policy between the attempts, and ends with `LockTimeout` at the first
/// attempt before which it has slept for the timeout or longer. Neither
/// before nor after that has it changed anything: the document, the
/// temporary file and the marker are as they were found.
pub proof fn law_lock_times_out(policy: LockPolicy, change: Change, store: Store<Cache>, times: nat)
    requires
        policy.well_formed(),
        store.locked,
    ensures
        honest(policy, change, store, finding_held(times)),
        run(policy, change, store, finding_held(times)).1 == store,
        run(policy, change, store, finding_held(times)).0 == if has_given_up(policy, times) {
            Phase::Released { outcome: Err(StoreError::LockTimeout) }
        } else {
            Phase::LockWait { change, waited_ms: time_slept(policy, times) }
        },
    decreases times,
{
    let events = finding_held(times);
    let interval = policy.poll_interval() as int;
    let timeout = policy.timeout() as int;
    if times == 0 {
        assert(events.drop_last() =~= Seq::<Event>::empty());
        assert(events.last() == Event::Begin);
        assert(run(policy, change, store, events.drop_last()) == (Phase::Idle { change }, store));
        assert(honest(policy, change, store, events.drop_last()));
        assert(0 * interval == 0) by (nonlinear_arith);
    } else {
        let fewer = (times - 1) as nat;
        law_lock_times_out(policy, change, store, fewer);
        assert(events.drop_last() =~= finding_held(fewer));
        assert(events.last() == Event::Lock(Attempt::Held));
        assert(times * interval == fewer * interval + interval) by (nonlinear_arith)
            requires
                times == fewer + 1,
        ;
        if has_given_up(policy, fewer) {
            assert((fewer - 1) * interval + interval == fewer * interval) by (nonlinear_arith);
        }
    }
}

/// With the policy of the settings cache, a caller who finds the lock held
/// gives up at its 101st attempt, after it has slept for two seconds, and no
/// sooner.
pub proof fn law_standard_policy_waits_two_seconds(policy: LockPolicy)
    requires
        policy.timeout() == 2000,
        policy.poll_interval() == 20,
    ensures
        !has_given_up(policy, 100),
        has_given_up(policy, 101),
        time_slept(policy, 100) == 2000,
{
}

} // verus!
