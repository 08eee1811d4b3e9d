use vexide_devices::competition::{
    updates, Competition, CompetitionMode, CompetitionStatus, CompetitionSystem, CompetitionTask,
    AUTONOMOUS, CONNECTED, DISABLED, SYSTEM,
};

#[test]
fn status_mode_prefers_disabled() {
    let s = CompetitionStatus::from_bits_retain(DISABLED | AUTONOMOUS);
    assert_eq!(s.mode(), CompetitionMode::Disabled);
    let s = CompetitionStatus::from_bits_retain(AUTONOMOUS);
    assert_eq!(s.mode(), CompetitionMode::Autonomous);
    let s = CompetitionStatus::from_bits_retain(0);
    assert_eq!(s.mode(), CompetitionMode::Driver);
}

#[test]
fn status_system_needs_connection() {
    assert_eq!(CompetitionStatus::from_bits_retain(SYSTEM).system(), None);
    assert_eq!(
        CompetitionStatus::from_bits_retain(CONNECTED | SYSTEM).system(),
        Some(CompetitionSystem::FieldControl)
    );
    assert_eq!(
        CompetitionStatus::from_bits_retain(CONNECTED).system(),
        Some(CompetitionSystem::CompetitionSwitch)
    );
    assert!(CompetitionStatus::from_bits_retain(CONNECTED).connected());
    assert_eq!(CompetitionStatus::from_bits_retain(0x1F).bits(), 0x1F);
}

#[test]
fn updates_yield_first_status_then_changes_only() {
    let mut u = updates();
    let a = CompetitionStatus::from_bits_retain(CONNECTED | DISABLED);
    let b = CompetitionStatus::from_bits_retain(CONNECTED | AUTONOMOUS);
    assert_eq!(u.last(b), b);
    assert_eq!(u.poll_next(a), Some(a));
    assert_eq!(u.poll_next(a), None);
    assert_eq!(u.poll_next(a), None);
    assert_eq!(u.poll_next(b), Some(b));
    assert_eq!(u.last(a), b);
}

#[test]
fn competition_starts_init_once_then_mode_tasks() {
    let mut c = Competition::new_raw();
    assert_eq!(c.current(), None);
    let off = CompetitionStatus::from_bits_retain(0);
    assert_eq!(c.poll_update(off), None);
    assert_eq!(c.current(), None);
    let disabled = CompetitionStatus::from_bits_retain(CONNECTED | DISABLED);
    assert_eq!(c.poll_update(disabled), Some(CompetitionTask::Init));
    assert_eq!(c.current(), Some(CompetitionTask::Init));
    assert_eq!(c.poll_update(disabled), None);
    assert_eq!(c.task_finished(disabled), CompetitionTask::Disabled);
    assert_eq!(c.current(), Some(CompetitionTask::Disabled));
}

#[test]
fn competition_task_follows_last_status_seen() {
    let mut c = Competition::new_raw();
    let auton = CompetitionStatus::from_bits_retain(CONNECTED | AUTONOMOUS);
    assert_eq!(c.poll_update(auton), Some(CompetitionTask::Init));
    let driver = CompetitionStatus::from_bits_retain(CONNECTED);
    assert_eq!(c.task_finished(driver), CompetitionTask::Autonomous);
}
