use docstore::cache::{Cache, CachePatch, FieldPatch};
use docstore::commit::{Commit, CommitAction, CommitEvent};
use docstore::error::StoreError;
use docstore::found::Found;
use docstore::layout::RelPath;
use docstore::lock::{Attempt, LockPolicy};
use docstore::update::{clear_cache, save_cache, update_cache, Action, Change, Event, Phase, Update};

/// The files of the cache, kept in memory.
struct Files {
    document: Option<Cache>,
    temp: Option<Cache>,
    locked: bool,
    slept_ms: u64,
    fail_rename: bool,
}

impl Files {
    fn new(document: Option<Cache>) -> Files {
        Files { document, temp: None, locked: false, slept_ms: 0, fail_rename: false }
    }

    /// Does what `action` asks for, and tells how it came out.
    fn perform(&mut self, action: Action, content: Option<&Cache>) -> Event {
        match action {
            Action::TryLock { delay_ms } => {
                self.slept_ms += delay_ms;
                if self.locked {
                    Event::Lock(Attempt::Held)
                } else {
                    self.locked = true;
                    Event::Lock(Attempt::Created)
                }
            }
            Action::ReadDocument => Event::Read(match &self.document {
                Some(cache) => Found::Present(cache.clone()),
                None => Found::Absent,
            }),
            Action::Commit(CommitAction::WriteTemp) => {
                self.temp = Some(content.unwrap().clone());
                Event::Commit(CommitEvent::TempWritten { flushed: true })
            }
            Action::Commit(CommitAction::RemoveFinal) => {
                self.document = None;
                Event::Commit(CommitEvent::FinalCleared { gone: true })
            }
            Action::Commit(CommitAction::Rename) => {
                if self.fail_rename {
                    Event::Commit(CommitEvent::RenameFailed("busy".to_string()))
                } else {
                    self.document = self.temp.take();
                    Event::Commit(CommitEvent::Renamed)
                }
            }
            Action::Unlock => {
                self.locked = false;
                Event::Unlocked
            }
        }
    }

    /// Runs `update` to its end.
    fn run(&mut self, update: Update) -> Result<(), StoreError> {
        let mut update = update.advance(Event::Begin);
        while let Some(action) = update.pending() {
            let event = self.perform(action, update.content());
            update = update.advance(event);
        }
        update.outcome().unwrap().clone()
    }

    /// Lets `update` take one step, if it waits for anything.
    fn step(&mut self, update: Update) -> Update {
        match update.pending() {
            Some(action) => {
                let event = self.perform(action, update.content());
                update.advance(event)
            }
            None => update,
        }
    }
}

fn text(s: &str) -> Option<String> {
    Some(s.to_string())
}

fn sample() -> Cache {
    Cache {
        signature_view_last_selected_signature: text("Work"),
        email_view_last_selected_signature: None,
        email_view_last_selected_salutation: text("Dear"),
        email_view_last_selected_valediction: text("Regards"),
    }
}

fn value(json: &str) -> serde_json::Value {
    serde_json::from_str(json).unwrap()
}

fn patching(json: &str) -> Update {
    update_cache(&value(json), LockPolicy::standard())
}

#[test]
fn an_update_begins_idle() {
    let update = patching(r#"{"email_view_last_selected_signature": "Home"}"#);
    assert_eq!(update.policy, LockPolicy::standard());
    assert_eq!(
        update.phase,
        Phase::Idle {
            change: Change::Patch(CachePatch {
                email_view_last_selected_signature: FieldPatch::Assign("Home".to_string()),
                ..CachePatch::empty()
            })
        }
    );
    assert_eq!(update.pending(), None);
    assert_eq!(update.content(), None);
    assert_eq!(update.outcome(), None);
    let saving = save_cache(sample(), LockPolicy::standard());
    assert_eq!(saving.phase, Phase::Idle { change: Change::Replace(sample()) });
}

#[test]
fn a_patch_goes_through_every_phase() {
    let update = patching(r#"{"email_view_last_selected_signature": "Home"}"#);
    let update = update.advance(Event::Begin);
    assert_eq!(update.pending(), Some(Action::TryLock { delay_ms: 0 }));
    let update = update.advance(Event::Lock(Attempt::Created));
    assert!(matches!(update.phase, Phase::Loading { .. }));
    assert_eq!(update.pending(), Some(Action::ReadDocument));
    let update = update.advance(Event::Read(Found::Present(sample())));
    let merged = Cache { email_view_last_selected_signature: text("Home"), ..sample() };
    assert_eq!(update.phase, Phase::Committing { next: merged.clone(), commit: Commit::Writing });
    assert_eq!(update.pending(), Some(Action::Commit(CommitAction::WriteTemp)));
    assert_eq!(update.content(), Some(&merged));
    let update = update.advance(Event::Commit(CommitEvent::TempWritten { flushed: false }));
    assert_eq!(update.pending(), Some(Action::Commit(CommitAction::RemoveFinal)));
    let update = update.advance(Event::Commit(CommitEvent::FinalCleared { gone: true }));
    assert_eq!(update.pending(), Some(Action::Commit(CommitAction::Rename)));
    let update = update.advance(Event::Commit(CommitEvent::Renamed));
    assert_eq!(update.phase, Phase::Releasing { outcome: Ok(()) });
    assert_eq!(update.pending(), Some(Action::Unlock));
    assert_eq!(update.outcome(), None);
    let update = update.advance(Event::Unlocked);
    assert_eq!(update.phase, Phase::Released { outcome: Ok(()) });
    assert_eq!(update.pending(), None);
    assert_eq!(update.outcome(), Some(&Ok(())));
}

#[test]
fn a_patch_is_merged_into_the_stored_cache() {
    let mut files = Files::new(Some(sample()));
    let r = files.run(patching(r#"{"email_view_last_selected_signature": "Home", "theme": "dark"}"#));
    assert_eq!(r, Ok(()));
    assert_eq!(
        files.document,
        Some(Cache { email_view_last_selected_signature: text("Home"), ..sample() })
    );
    assert!(!files.locked);
    assert_eq!(files.temp, None);
}

#[test]
fn a_patch_on_an_absent_cache_starts_from_the_empty_cache() {
    let mut files = Files::new(None);
    let r = files.run(patching(r#"{"email_view_last_selected_salutation": "Hi"}"#));
    assert_eq!(r, Ok(()));
    assert_eq!(
        files.document,
        Some(Cache { email_view_last_selected_salutation: text("Hi"), ..Cache::empty() })
    );
}

#[test]
fn a_patch_on_a_corrupt_cache_starts_from_the_empty_cache() {
    let update = patching(r#"{"email_view_last_selected_salutation": "Hi"}"#)
        .advance(Event::Begin)
        .advance(Event::Lock(Attempt::Created))
        .advance(Event::Read(Found::Corrupt("expected value".to_string())));
    assert_eq!(
        update.content(),
        Some(&Cache { email_view_last_selected_salutation: text("Hi"), ..Cache::empty() })
    );
}

#[test]
fn a_saved_cache_is_loaded_as_it_was_saved() {
    let mut files = Files::new(Some(Cache::empty()));
    assert_eq!(files.run(save_cache(sample(), LockPolicy::standard())), Ok(()));
    assert_eq!(files.document, Some(sample()));
    assert!(!files.locked);
    match files.perform(Action::ReadDocument, None) {
        Event::Read(found) => assert_eq!(docstore::cache::load_cache(found), Ok(sample())),
        other => panic!("{:?}", other),
    }
}

#[test]
fn a_replacement_does_not_read_the_cache() {
    let update = save_cache(sample(), LockPolicy::standard())
        .advance(Event::Begin)
        .advance(Event::Lock(Attempt::Created));
    assert_eq!(update.phase, Phase::Committing { next: sample(), commit: Commit::Writing });
}

#[test]
fn a_lock_that_is_never_released_times_out() {
    let mut files = Files::new(Some(sample()));
    files.locked = true;
    let r = files.run(patching(r#"{"email_view_last_selected_signature": "Home"}"#));
    assert_eq!(r, Err(StoreError::LockTimeout));
    assert_eq!(r.unwrap_err().message(), "Timed out waiting for cache lock");
    assert_eq!(files.document, Some(sample()));
    assert_eq!(files.temp, None);
    assert!(files.locked);
    assert_eq!(files.slept_ms, 2000);
}

#[test]
fn a_caller_sleeps_between_its_attempts() {
    let policy = LockPolicy::new(50, 20).unwrap();
    let update = update_cache(&value("{}"), policy).advance(Event::Begin);
    assert_eq!(update.pending(), Some(Action::TryLock { delay_ms: 0 }));
    let update = update.advance(Event::Lock(Attempt::Held));
    assert_eq!(update.pending(), Some(Action::TryLock { delay_ms: 20 }));
    let update = update.advance(Event::Lock(Attempt::Held)).advance(Event::Lock(Attempt::Held));
    assert!(matches!(update.phase, Phase::LockWait { waited_ms: 60, .. }));
    let update = update.advance(Event::Lock(Attempt::Held));
    assert_eq!(update.phase, Phase::Released { outcome: Err(StoreError::LockTimeout) });
}

#[test]
fn a_marker_that_cannot_be_created_ends_the_update() {
    let update = patching("{}")
        .advance(Event::Begin)
        .advance(Event::Lock(Attempt::Failed("read-only".to_string())));
    assert_eq!(update.phase, Phase::Released { outcome: Err(StoreError::Io("read-only".to_string())) });
    assert_eq!(update.pending(), None);
}

#[test]
fn the_lock_is_released_when_the_cache_cannot_be_read() {
    let update = patching("{}")
        .advance(Event::Begin)
        .advance(Event::Lock(Attempt::Created))
        .advance(Event::Read(Found::Unreadable("denied".to_string())));
    assert_eq!(update.phase, Phase::Releasing { outcome: Err(StoreError::Io("denied".to_string())) });
    assert_eq!(update.pending(), Some(Action::Unlock));
    let update = update.advance(Event::Unlocked);
    assert_eq!(update.outcome(), Some(&Err(StoreError::Io("denied".to_string()))));
}

#[test]
fn the_lock_is_released_when_the_commit_fails() {
    let mut files = Files::new(Some(sample()));
    files.fail_rename = true;
    let r = files.run(patching(r#"{"email_view_last_selected_signature": "Home"}"#));
    assert_eq!(r, Err(StoreError::Io("busy".to_string())));
    assert!(!files.locked);

    let update = patching("{}")
        .advance(Event::Begin)
        .advance(Event::Lock(Attempt::Created))
        .advance(Event::Read(Found::Absent))
        .advance(Event::Commit(CommitEvent::WriteFailed("disk full".to_string())));
    assert_eq!(update.pending(), Some(Action::Unlock));
}

#[test]
fn events_out_of_turn_change_nothing() {
    let idle = patching("{}");
    let still = idle.advance(Event::Unlocked);
    assert!(matches!(still.phase, Phase::Idle { .. }));
    let waiting = still.advance(Event::Begin).advance(Event::Read(Found::Absent));
    assert!(matches!(waiting.phase, Phase::LockWait { waited_ms: 0, .. }));
    let loading = waiting.advance(Event::Lock(Attempt::Created)).advance(Event::Begin);
    assert!(matches!(loading.phase, Phase::Loading { .. }));
    let done = Update {
        policy: LockPolicy::standard(),
        phase: Phase::Released { outcome: Ok(()) },
    };
    assert_eq!(done.advance(Event::Begin).phase, Phase::Released { outcome: Ok(()) });
}

#[test]
fn two_updates_at_once_lose_nothing() {
    let mut files = Files::new(Some(sample()));
    let mut first = patching(r#"{"email_view_last_selected_signature": "Home"}"#).advance(Event::Begin);
    let mut second = patching(r#"{"email_view_last_selected_salutation": null}"#).advance(Event::Begin);
    // the first takes the lock and reads; the second finds the lock held
    first = files.step(first);
    second = files.step(second);
    assert!(matches!(second.phase, Phase::LockWait { waited_ms: 20, .. }));
    first = files.step(first);
    second = files.step(second);
    // the two go on in turns until both have ended
    while first.pending().is_some() || second.pending().is_some() {
        first = files.step(first);
        second = files.step(second);
        assert!(!(first.content().is_some() && second.content().is_some()));
    }
    assert_eq!(first.outcome(), Some(&Ok(())));
    assert_eq!(second.outcome(), Some(&Ok(())));
    assert_eq!(
        files.document,
        Some(Cache {
            email_view_last_selected_signature: text("Home"),
            email_view_last_selected_salutation: None,
            ..sample()
        })
    );
    assert!(!files.locked);
}

#[test]
fn clearing_a_cache_removes_its_file() {
    assert_eq!(
        clear_cache("cache.json"),
        RelPath { parts: vec!["data".to_string(), "cache.json".to_string()] }
    );
}
