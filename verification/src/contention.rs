//! Two updates of the same cache at once: what the lock buys. The model of
//! `model` is run with two callers whose events come in any order, on the
//! same files.

use crate::cache::{merged, Cache, CachePatch};
use crate::commit::committed;
use crate::lock::{Attempt, LockPolicy};
use crate::model::{can_come, commit_holds, files_after, value_of, Slot, Store};
use crate::update::{advanced, holds_lock, Change, Event, Phase};
use vstd::prelude::*;

verus! {

/// One event, and the caller it comes to.
pub struct Turn {
    /// Whether the event comes to the second caller.
    pub second: bool,
    pub event: Event,
}

/// Two callers that patch the same cache.
pub struct Callers {
    pub first_policy: LockPolicy,
    pub first_patch: CachePatch,
    pub second_policy: LockPolicy,
    pub second_patch: CachePatch,
}

/// Where the two callers stand, and the files they share.
pub struct Scene {
    pub first: Phase,
    pub second: Phase,
    pub store: Store<Cache>,
    /// What the document held when the lock was last taken.
    pub taken: Slot<Cache>,
}

/// What the document held when the lock was last taken, after `event` came
/// to a caller in the phase `phase`.
pub open spec fn taken_after(
    phase: Phase,
    store: Store<Cache>,
    taken: Slot<Cache>,
    event: Event,
) -> Slot<Cache> {
    if phase is LockWait && event == Event::Lock(Attempt::Created) {
        store.document
    } else {
        taken
    }
}

/// The scene after one turn.
pub open spec fn scene_after(callers: Callers, scene: Scene, turn: Turn) -> Scene {
    if turn.second {
        Scene {
            first: scene.first,
            second: advanced(callers.second_policy, scene.second, turn.event),
            store: files_after(callers.second_policy, scene.second, scene.store, turn.event),
            taken: taken_after(scene.second, scene.store, scene.taken, turn.event),
        }
    } else {
        Scene {
            first: advanced(callers.first_policy, scene.first, turn.event),
            second: scene.second,
            store: files_after(callers.first_policy, scene.first, scene.store, turn.event),
            taken: taken_after(scene.first, scene.store, scene.taken, turn.event),
        }
    }
}

/// Whether the event of `turn` can come to its caller in `scene`.
pub open spec fn turn_can_come(callers: Callers, scene: Scene, turn: Turn) -> bool {
    if turn.second {
        can_come(callers.second_policy, scene.second, scene.store, turn.event)
    } else {
        can_come(callers.first_policy, scene.first, scene.store, turn.event)
    }
}

/// The scene in which neither caller has done anything.
pub open spec fn opening(callers: Callers, store: Store<Cache>) -> Scene {
    Scene {
        first: Phase::Idle { change: Change::Patch(callers.first_patch) },
        second: Phase::Idle { change: Change::Patch(callers.second_patch) },
        store,
        taken: store.document,
    }
}

/// The scene after the turns `turns` in their order, begun on the files
/// `store`.
pub open spec fn play(callers: Callers, store: Store<Cache>, turns: Seq<Turn>) -> Scene
    decreases turns.len(),
{
    if turns.len() == 0 {
        opening(callers, store)
    } else {
        scene_after(callers, play(callers, store, turns.drop_last()), turns.last())
    }
}

/// Whether each event of `turns` could come when it came.
pub open spec fn fair(callers: Callers, store: Store<Cache>, turns: Seq<Turn>) -> bool
    decreases turns.len(),
{
    turns.len() == 0 || {
        &&& fair(callers, store, turns.drop_last())
        &&& turn_can_come(callers, play(callers, store, turns.drop_last()), turns.last())
    }
}

/// Whether a caller in the phase `phase` has ended well.
pub open spec fn ended_well(phase: Phase) -> bool {
    phase matches Phase::Released { outcome: Ok(_) }
}

/// Whether a caller in the phase `phase` has met a failure.
pub open spec fn failed(phase: Phase) -> bool {
    ||| phase matches Phase::Releasing { outcome: Err(_) }
    ||| phase matches Phase::Released { outcome: Err(_) }
}

/// The document with `patch` merged into it.
pub open spec fn patched_slot(slot: Slot<Cache>, patch: CachePatch) -> Slot<Cache> {
    Slot::Whole(merged(value_of(slot), patch))
}

/// What the document holds when both callers have ended well: both patches,
/// merged one after the other in one of the two orders.
pub open spec fn both_applied(callers: Callers, initial: Slot<Cache>, document: Slot<Cache>) -> bool {
    ||| document == patched_slot(
        patched_slot(initial, callers.first_patch),
        callers.second_patch,
    )
    ||| document == patched_slot(
        patched_slot(initial, callers.second_patch),
        callers.first_patch,
    )
}

/// What a caller finds when it takes the lock while the other caller, who
/// patches with `patch`, stands at `other`.
spec fn seen_beside(other: Phase, patch: CachePatch, initial: Slot<Cache>) -> Slot<Cache> {
    if ended_well(other) {
        patched_slot(initial, patch)
    } else {
        initial
    }
}

/// What holds of one caller, who patches with `patch`.
spec fn caller_holds(phase: Phase, patch: CachePatch, scene: Scene) -> bool {
    match phase {
        Phase::Idle { change } => change == Change::Patch(patch),
        Phase::LockWait { change, .. } => change == Change::Patch(patch),
        Phase::Loading { patch: held } => held == patch && scene.store.document == scene.taken,
        Phase::Committing { next, commit } => {
            &&& next == merged(value_of(scene.taken), patch)
            &&& !(commit is Done)
            &&& commit_holds(next, scene.taken, commit, scene.store)
        },
        Phase::Releasing { outcome } => outcome is Ok ==> scene.store.document == patched_slot(
            scene.taken,
            patch,
        ),
        Phase::Released { .. } => true,
    }
}

/// What holds of the document while neither caller holds the lock and
/// neither has met a failure.
spec fn at_rest(callers: Callers, initial: Slot<Cache>, scene: Scene) -> bool {
    if ended_well(scene.first) && ended_well(scene.second) {
        both_applied(callers, initial, scene.store.document)
    } else if ended_well(scene.first) {
        scene.store.document == patched_slot(initial, callers.first_patch)
    } else if ended_well(scene.second) {
        scene.store.document == patched_slot(initial, callers.second_patch)
    } else {
        scene.store.document == initial
    }
}

/// What holds of every scene of a fair play.
spec fn scene_holds(callers: Callers, initial: Slot<Cache>, scene: Scene) -> bool {
    &&& scene.store.locked == (holds_lock(scene.first) || holds_lock(scene.second))
    &&& !(holds_lock(scene.first) && holds_lock(scene.second))
    &&& !(scene.store.document is Torn)
    &&& caller_holds(scene.first, callers.first_patch, scene)
    &&& caller_holds(scene.second, callers.second_patch, scene)
    &&& !failed(scene.first) && !failed(scene.second) ==> {
        &&& holds_lock(scene.first) ==> scene.taken == seen_beside(
            scene.second,
            callers.second_patch,
            initial,
        )
        &&& holds_lock(scene.second) ==> scene.taken == seen_beside(
            scene.first,
            callers.first_patch,
            initial,
        )
        &&& !holds_lock(scene.first) && !holds_lock(scene.second) ==> at_rest(
            callers,
            initial,
            scene,
        )
    }
}

/// The callers with their places exchanged.
spec fn exchanged(callers: Callers) -> Callers {
    Callers {
        first_policy: callers.second_policy,
        first_patch: callers.second_patch,
        second_policy: callers.first_policy,
        second_patch: callers.first_patch,
    }
}

/// The scene with the places of the callers exchanged.
spec fn mirrored(scene: Scene) -> Scene {
    Scene { first: scene.second, second: scene.first, store: scene.store, taken: scene.taken }
}

/// A turn of the first caller that can come leaves standing what holds of
/// the scene.
proof fn lemma_first_moves(callers: Callers, initial: Slot<Cache>, scene: Scene, event: Event)
    requires
        scene_holds(callers, initial, scene),
        can_come(callers.first_policy, scene.first, scene.store, event),
    ensures
        scene_holds(
            callers,
            initial,
            scene_after(callers, scene, Turn { second: false, event }),
        ),
{
    let after = scene_after(callers, scene, Turn { second: false, event });
    match scene.first {
        Phase::Idle { change } => {},
        Phase::LockWait { change, waited_ms } => {},
        Phase::Loading { patch } => {},
        Phase::Committing { next, commit } => {
            match event {
                Event::Commit(inner) => {
                    assert(commit_holds(
                        next,
                        scene.taken,
                        committed(commit, inner),
                        after.store,
                    ));
                },
                _ => {},
            }
        },
        Phase::Releasing { outcome } => {},
        Phase::Released { outcome } => {},
    }
}

/// A turn that can come leaves standing what holds of the scene.
proof fn lemma_turn(callers: Callers, initial: Slot<Cache>, scene: Scene, turn: Turn)
    requires
        scene_holds(callers, initial, scene),
        turn_can_come(callers, scene, turn),
    ensures
        scene_holds(callers, initial, scene_after(callers, scene, turn)),
{
    if turn.second {
        let after = scene_after(callers, scene, turn);
        let twin = scene_after(
            exchanged(callers),
            mirrored(scene),
            Turn { second: false, event: turn.event },
        );
        assert(scene_holds(exchanged(callers), initial, mirrored(scene)));
        lemma_first_moves(exchanged(callers), initial, mirrored(scene), turn.event);
        assert(twin == mirrored(after));
        assert(scene_holds(callers, initial, after));
    } else {
        lemma_first_moves(callers, initial, scene, turn.event);
    }
}

/// What holds of the scene holds after every fair play.
proof fn lemma_play(callers: Callers, store: Store<Cache>, turns: Seq<Turn>)
    requires
        !store.locked,
        !(store.document is Torn),
        fair(callers, store, turns),
    ensures
        scene_holds(callers, store.document, play(callers, store, turns)),
    decreases turns.len(),
{
    if turns.len() > 0 {
        lemma_play(callers, store, turns.drop_last());
        lemma_turn(
            callers,
            store.document,
            play(callers, store, turns.drop_last()),
            turns.last(),
        );
    }
}

/// The lock keeps two updates apart, and no update is lost. Two callers
/// patch the same cache, the lock is free when they begin, and their events
/// come in any order, each of them true when it comes. Then, wherever the
/// play stands: the two never hold the lock at the same time, the marker
/// exists just when one of them holds it, and the document never holds a
/// torn content. When both have ended well, the document holds both
/// patches, merged one after the other in one of the two orders.
pub proof fn law_no_update_is_lost(callers: Callers, store: Store<Cache>, turns: Seq<Turn>)
    requires
        !store.locked,
        !(store.document is Torn),
        fair(callers, store, turns),
    ensures
        ({
            let scene = play(callers, store, turns);
            &&& !(holds_lock(scene.first) && holds_lock(scene.second))
            &&& scene.store.locked == (holds_lock(scene.first) || holds_lock(scene.second))
            &&& !(scene.store.document is Torn)
            &&& ended_well(scene.first) && ended_well(scene.second) ==> both_applied(
                callers,
                store.document,
                scene.store.document,
            )
        }),
{
    lemma_play(callers, store, turns);
}

} // verus!
