use rustux_syscalls::event::{
    sys_event_create_impl, sys_eventpair_create_impl, sys_object_signal_impl, Event, EventFlags, EventPair,
    EventPairRegistry, EventRegistry, EventSubsystem,
};
use rustux_syscalls::kobject::HandleTable;
use rustux_syscalls::object_wait::WaitQueueRegistry;

#[test]
fn test_event_registry_insert_get() {
    let mut reg = EventRegistry::new();
    let event = Event::new(1, false, EventFlags::empty());
    let id = reg.insert(event).unwrap();
    assert_eq!(id, event.id);
    let retrieved = reg.get(id).unwrap();
    assert_eq!(retrieved.id, event.id);
}

#[test]
fn test_event_registry_remove() {
    let mut reg = EventRegistry::new();
    let event = Event::new(2, false, EventFlags::empty());
    let id = reg.insert(event).unwrap();
    let removed = reg.remove(id).unwrap();
    assert_eq!(removed.id, event.id);
    assert!(reg.get(id).is_none());
}

#[test]
fn test_event_create_unsignaled() {
    let event = Event::new(1, false, EventFlags::empty());
    assert!(!event.is_signaled());
}

#[test]
fn test_event_create_signaled() {
    let event = Event::new(1, true, EventFlags::empty());
    assert!(event.is_signaled());
}

#[test]
fn test_event_signal_unsignal() {
    let mut event = Event::new(1, false, EventFlags::manual_reset());
    event.signal();
    assert!(event.is_signaled());
    event.unsignal();
    assert!(!event.is_signaled());
}

#[test]
fn test_event_flags_manual_reset() {
    let flags = EventFlags::manual_reset();
    assert!(flags.is_manual_reset());
    assert!(!EventFlags::empty().is_manual_reset());
}

#[test]
fn test_eventpair_registry_insert_get() {
    let mut reg = EventPairRegistry::new();
    let (pair_a, _pair_b) = EventPair::create(10).unwrap();
    let id = reg.insert(pair_a).unwrap();
    assert_eq!(id, pair_a.id);
    let retrieved = reg.get(id).unwrap();
    assert_eq!(retrieved.id, pair_a.id);
}

#[test]
fn test_eventpair_create() {
    let (pair_a, pair_b) = EventPair::create(10).unwrap();
    assert_ne!(pair_a.id, pair_b.id);
    assert_eq!(pair_a.peer, pair_b.id);
    assert_eq!(pair_b.peer, pair_a.id);
}

#[test]
fn event_create_syscall_installs_handle() {
    let mut sub = EventSubsystem::new();
    let mut handles = HandleTable::new();
    let r = sys_event_create_impl(&mut sub, &mut handles, 0x3);
    assert_eq!(r, 1);
    let e = sub.events.get(1).unwrap();
    assert!(e.is_signaled());
    assert!(e.flags.is_manual_reset());
    assert!(handles.get(1).is_some());
    assert_eq!(sub.next_id, 2);
}

#[test]
fn eventpair_create_syscall_packs_both_handles() {
    let mut sub = EventSubsystem::new();
    let mut handles = HandleTable::new();
    let r = sys_eventpair_create_impl(&mut sub, &mut handles);
    assert!(r > 0);
    assert!(sub.pairs.get(1).is_some());
    assert!(sub.pairs.get(2).is_some());
    assert_eq!(sub.pairs.get(1).unwrap().peer, 2);
}

#[test]
fn object_signal_sets_event() {
    let mut sub = EventSubsystem::new();
    let mut handles = HandleTable::new();
    let h = sys_event_create_impl(&mut sub, &mut handles, 0) as u32;
    let mut waits = WaitQueueRegistry::new();
    assert!(!sub.events.get(1).unwrap().is_signaled());
    let r = sys_object_signal_impl(&mut sub, &handles, &mut waits, h, 0);
    assert_eq!(r, 0);
    assert!(sub.events.get(1).unwrap().is_signaled());
    assert!(sys_object_signal_impl(&mut sub, &handles, &mut waits, 77, 0) < 0);
}
