use rustux_syscalls::err_to_ret;
use rustux_syscalls::kobject::{Handle, HandleTable, ObjectType, RIGHTS_WRITE};
use rustux_syscalls::status::RX_ERR_OUT_OF_RANGE;
use rustux_syscalls::timer::{
    sys_timer_cancel_impl, sys_timer_create_impl, sys_timer_set_impl, Timer, TimerRegistry, TimerState, TimerSubsystem,
    CLOCK_MONOTONIC,
};

#[test]
fn test_timer_registry_insert_get() {
    let mut reg = TimerRegistry::new();
    let timer = Timer::create(1).unwrap();
    let id = reg.insert(timer).unwrap();
    assert_eq!(id, timer.id);
    let retrieved = reg.get(id).unwrap();
    assert_eq!(retrieved.id, timer.id);
}

#[test]
fn test_timer_registry_remove() {
    let mut reg = TimerRegistry::new();
    let timer = Timer::create(2).unwrap();
    let id = reg.insert(timer).unwrap();
    let removed = reg.remove(id).unwrap();
    assert_eq!(removed.id, timer.id);
    assert!(reg.get(id).is_none());
}

#[test]
fn test_timer_create() {
    let timer = Timer::create(1).unwrap();
    assert_eq!(timer.state(), TimerState::Disarmed);
    assert_eq!(timer.period(), None);
}

#[test]
fn test_timer_set() {
    let mut timer = Timer::create(1).unwrap();
    timer.set(1_000_000, Some(1000)).unwrap();
    assert_eq!(timer.state(), TimerState::Armed);
    assert_eq!(timer.deadline(), 1_000_000);
    assert_eq!(timer.slack(), 1000);
}

#[test]
fn test_timer_cancel() {
    let mut timer = Timer::create(1).unwrap();
    timer.set(1_000_000, None).unwrap();
    assert!(timer.cancel().is_ok());
    assert_eq!(timer.state(), TimerState::Canceled);
}

#[test]
fn test_timer_set_periodic() {
    let mut timer = Timer::create(1).unwrap();
    timer.set_periodic(1_000_000, 100_000, None).unwrap();
    assert_eq!(timer.state(), TimerState::Armed);
    assert_eq!(timer.period(), Some(100_000));
}

/// A timer subsystem with one timer whose handle value is 0.
fn timer_under_handle_zero() -> (TimerSubsystem, HandleTable) {
    let mut sub = TimerSubsystem::new();
    let mut handles = HandleTable::new();
    sub.registry.insert(Timer::create(1).unwrap()).unwrap();
    handles.install(0, Handle::new(ObjectType::Timer, 1, RIGHTS_WRITE)).unwrap();
    (sub, handles)
}

#[test]
fn test_slack_validation() {
    let (mut sub, handles) = timer_under_handle_zero();
    assert!(sys_timer_set_impl(&mut sub, &handles, 0, 1000, 0) >= 0);
    assert!(sys_timer_set_impl(&mut sub, &handles, 0, 1000, 1000) >= 0);
    assert!(sys_timer_set_impl(&mut sub, &handles, 0, 1000, -1) < 0);
    assert_eq!(sys_timer_set_impl(&mut sub, &handles, 0, 1000, -1), err_to_ret(RX_ERR_OUT_OF_RANGE));
}

#[test]
fn test_clock_id_validation() {
    let mut sub = TimerSubsystem::new();
    let mut handles = HandleTable::new();
    assert!(sys_timer_create_impl(&mut sub, &mut handles, 0, CLOCK_MONOTONIC) >= 0);
    assert!(sys_timer_create_impl(&mut sub, &mut handles, 0, 999) < 0);
}

#[test]
fn timer_syscalls_arm_and_cancel() {
    let mut sub = TimerSubsystem::new();
    let mut handles = HandleTable::new();
    let h = sys_timer_create_impl(&mut sub, &mut handles, 0, CLOCK_MONOTONIC) as u32;
    assert_eq!(sys_timer_set_impl(&mut sub, &handles, h, 500, 7), 0);
    let t = sub.registry.get(h as u64).unwrap();
    assert_eq!(t.state(), TimerState::Armed);
    assert_eq!(t.deadline(), 500);
    assert_eq!(t.slack(), 7);
    assert_eq!(sys_timer_cancel_impl(&mut sub, &handles, h), 0);
    assert_eq!(sub.registry.get(h as u64).unwrap().state(), TimerState::Canceled);
    assert!(sys_timer_set_impl(&mut sub, &handles, h + 1, 500, 7) < 0);
}
