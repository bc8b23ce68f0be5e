use nearby::delayed::{supersede, Delayed, TaskPhase};

#[test]
fn fires_once_deadline_passes() {
    let mut task = Delayed::new(1000, 500);
    assert!(task.is_pending());
    assert_eq!(task.deadline, 1500);
    assert!(!task.try_fire(1499));
    assert!(task.is_pending());
    assert!(task.try_fire(1500));
    assert!(matches!(task.phase, TaskPhase::Fired));
}

#[test]
fn fires_at_most_once() {
    let mut task = Delayed::new(0, 100);
    assert!(task.try_fire(100));
    assert!(!task.try_fire(200));
    assert!(matches!(task.phase, TaskPhase::Fired));
}

#[test]
fn cancelled_task_never_fires() {
    let mut task = Delayed::new(0, 100);
    task.cancel();
    assert!(matches!(task.phase, TaskPhase::Cancelled));
    assert!(!task.try_fire(100));
    assert!(!task.try_fire(u64::MAX));
    assert!(matches!(task.phase, TaskPhase::Cancelled));
}

#[test]
fn cancel_after_fire_is_a_noop() {
    let mut task = Delayed::new(0, 100);
    assert!(task.try_fire(150));
    // Cancelling a fired task must neither error nor change anything.
    task.cancel();
    assert!(matches!(task.phase, TaskPhase::Fired));
    assert_eq!(task.deadline, 100);
}

#[test]
fn cancel_is_idempotent() {
    let mut task = Delayed::new(0, 100);
    task.cancel();
    task.cancel();
    assert!(matches!(task.phase, TaskPhase::Cancelled));
}

#[test]
fn superseding_leaves_exactly_one_live_timer() {
    let mut slot = Some(Delayed::new(0, 100));
    let superseded = supersede(&mut slot, 50, 100);
    // The old countdown came back cancelled; it can never fire now.
    let mut old_task = superseded.unwrap();
    assert!(matches!(old_task.phase, TaskPhase::Cancelled));
    assert!(!old_task.try_fire(u64::MAX));
    // The slot holds the one fresh countdown.
    let new_task = slot.as_ref().unwrap();
    assert!(new_task.is_pending());
    assert_eq!(new_task.deadline, 150);
}

#[test]
fn superseding_an_empty_slot_just_schedules() {
    let mut slot: Option<Delayed> = None;
    let superseded = supersede(&mut slot, 10, 20);
    assert!(superseded.is_none());
    assert_eq!(slot.unwrap().deadline, 30);
}
