use helix_gpui::handle::{blocking_outcome, try_outcome, EditorModel, EngineLockError};
use std::sync::{PoisonError, TryLockError};

fn bump_then_fail(model: &EditorModel<u32>) -> Result<u32, String> {
    let mut guard = blocking_outcome(model.shared().lock()).map_err(|_| String::from("poisoned"))?;
    *guard += 1;
    if *guard > 0 {
        return Err(String::from("failed inside the critical section"));
    }
    Ok(*guard)
}

#[test]
fn second_try_lock_while_guard_live_is_unavailable() {
    let model = EditorModel::new(5u32);
    let guard = model.try_lock();
    assert!(guard.is_some());
    assert!(model.try_lock().is_none());
    let other = model.clone();
    assert!(other.try_lock().is_none());
    drop(guard);
    assert!(model.try_lock().is_some());
}

#[test]
fn try_lock_returns_while_blocking_holder_is_live() {
    let model = EditorModel::new(String::from("doc"));
    let held = model.shared().lock().unwrap();
    assert_eq!(held.as_str(), "doc");
    assert!(model.try_lock().is_none());
    drop(held);
    let again = model.try_lock().unwrap();
    assert_eq!(again.as_str(), "doc");
}

#[test]
fn lock_released_after_early_failure() {
    let model = EditorModel::new(0u32);
    assert_eq!(bump_then_fail(&model), Err(String::from("failed inside the critical section")));
    let guard = model.try_lock().unwrap();
    assert_eq!(*guard, 1);
}

#[test]
fn clones_share_one_engine() {
    let model = EditorModel::new(vec![1u8]);
    let other = model.clone();
    other.shared().lock().unwrap().push(2);
    assert_eq!(*model.shared().lock().unwrap(), vec![1u8, 2]);
}

#[test]
fn blocking_outcome_maps_poison_to_error() {
    let ok: Result<u8, PoisonError<u8>> = Ok(7);
    assert_eq!(blocking_outcome(ok), Ok(7));
    let poisoned: Result<u8, PoisonError<u8>> = Err(PoisonError::new(7));
    assert_eq!(blocking_outcome(poisoned), Err(EngineLockError::Poisoned));
}

#[test]
fn try_outcome_maps_contention_and_poison_to_none() {
    let ok: Result<u8, TryLockError<u8>> = Ok(3);
    assert_eq!(try_outcome(ok), Some(3));
    let busy: Result<u8, TryLockError<u8>> = Err(TryLockError::WouldBlock);
    assert_eq!(try_outcome(busy), None);
    let poisoned: Result<u8, TryLockError<u8>> = Err(TryLockError::Poisoned(PoisonError::new(3)));
    assert_eq!(try_outcome(poisoned), None);
}

#[test]
fn try_lock_on_the_holding_thread_is_unavailable() {
    let model = EditorModel::new(1u32);
    let held = blocking_outcome(model.shared().lock()).unwrap();
    assert!(model.try_lock().is_none());
    drop(held);
    assert_eq!(*model.try_lock().unwrap(), 1);
}

struct Engine {
    edits: Vec<String>,
}

#[test]
fn handle_around_uncloneable_engine_is_shared_by_clones() {
    let model = EditorModel::new(Engine { edits: Vec::new() });
    let bridge_side = model.clone();
    let view_side = bridge_side.clone();
    view_side.shared().lock().unwrap().edits.push(String::from("insert"));
    let held = model.try_lock().unwrap();
    assert_eq!(held.edits, vec![String::from("insert")]);
    assert!(bridge_side.try_lock().is_none());
    drop(held);
    assert_eq!(bridge_side.try_lock().unwrap().edits.len(), 1);
}
