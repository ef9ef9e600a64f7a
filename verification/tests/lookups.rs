use rustux_syscalls::channel::{sys_channel_create_impl, sys_channel_read_impl, sys_channel_write_impl, ChannelSubsystem};
use rustux_syscalls::err_to_ret;
use rustux_syscalls::event::{Event, EventFlags, EventRegistry};
use rustux_syscalls::fifo::{FifoEntry, FifoRegistry};
use rustux_syscalls::futex::{futex_wake, FutexContext, FutexState, FUTEX_OWNER_INVALID};
use rustux_syscalls::kobject::{Handle, HandleTable, ObjectType, RIGHTS_READ, RIGHTS_TRANSFER};
use rustux_syscalls::object::{info_topic, sys_object_get_info_impl};
use rustux_syscalls::profile::{sys_profile_create_impl, Profile};
use rustux_syscalls::status::{
    RX_ERR_ACCESS_DENIED, RX_ERR_BAD_HANDLE, RX_ERR_BAD_STATE, RX_ERR_BUFFER_TOO_SMALL, RX_ERR_INVALID_ARGS,
    RX_ERR_NOT_FOUND,
};
use rustux_syscalls::timer::{Timer, TimerRegistry, MAX_TIMERS};
use rustux_syscalls::usercopy::UserMemory;
use rustux_syscalls::vmar::{vmar_options, MemProt, Vmar};

#[test]
fn timer_inserted_past_a_taken_home_slot_is_found() {
    let mut reg = TimerRegistry::new();
    let first = Timer::create(5).unwrap();
    let second = Timer::create(5 + MAX_TIMERS as u64).unwrap();
    assert_eq!(reg.insert(first).unwrap(), 5);
    assert_eq!(reg.insert(second).unwrap(), 5 + MAX_TIMERS as u64);
    assert_eq!(reg.get(5 + MAX_TIMERS as u64).unwrap().id, 5 + MAX_TIMERS as u64);
    assert_eq!(reg.get(5).unwrap().id, 5);
    assert_eq!(reg.count(), 2);
    assert_eq!(reg.remove(5).unwrap().id, 5);
    assert_eq!(reg.get(5 + MAX_TIMERS as u64).unwrap().id, 5 + MAX_TIMERS as u64);
}

#[test]
fn event_removal_of_an_absent_id_keeps_the_slot_occupant() {
    let mut reg = EventRegistry::new();
    let e = Event::new(7, false, EventFlags { bits: 0 });
    assert_eq!(reg.insert(e).unwrap(), 7);
    assert!(reg.remove(7 + 65536).is_none());
    assert_eq!(reg.get(7).unwrap().id, 7);
    assert_eq!(reg.count(), 1);
}

#[test]
fn fifo_removal_checks_the_id() {
    let mut reg = FifoRegistry::new();
    assert!(reg.insert(3, FifoEntry::new(3, 1, 4)).is_ok());
    assert_eq!(reg.remove(3 + 32768), Err(RX_ERR_NOT_FOUND));
    assert_eq!(reg.get(3).unwrap().id, 3);
    assert_eq!(reg.remove(3), Ok(()));
    assert!(reg.get(3).is_none());
}

#[test]
fn destroyed_vmar_refuses_mapping() {
    let mut root = Vmar::new_root(1, 0, 0x10_0000);
    let mut child = Vmar::new_child(&mut root, 2, 0x1000, 0x4000, vmar_options::CAN_MAP_READ, 0xFFF).unwrap();
    let prot = MemProt { read: true, write: false, execute: false };
    assert_eq!(child.map(9, 0x1000, 0, 0, 0x1000, prot, vmar_options::SPECIFIC), Ok(0));
    assert_eq!(root.destroy(), Err(rustux_syscalls::status::RX_ERR_ACCESS_DENIED));
    assert_eq!(child.destroy(), Ok(()));
    assert!(child.is_destroyed());
    assert_eq!(child.children.len(), 0);
    assert_eq!(child.map(9, 0x1000, 0x1000, 0, 0x1000, prot, vmar_options::SPECIFIC), Err(RX_ERR_BAD_STATE));
    assert_eq!(child.unmap(0, 0x1000), Err(RX_ERR_BAD_STATE));
    assert_eq!(child.protect(0, 0x1000, prot), Err(RX_ERR_BAD_STATE));
}

#[test]
fn futex_wake_counts_the_waiters_woken() {
    let mut ctx = FutexContext::new();
    assert_eq!(futex_wake(&mut ctx, 0x1000, 1, FUTEX_OWNER_INVALID), Ok(0));
    ctx.futexes.insert(0x2000, FutexState { waiters: 0, owner: FUTEX_OWNER_INVALID });
    assert_eq!(futex_wake(&mut ctx, 0x2000, 1, FUTEX_OWNER_INVALID), Ok(0));
    ctx.futexes.insert(0x3000, FutexState { waiters: 3, owner: FUTEX_OWNER_INVALID });
    assert_eq!(futex_wake(&mut ctx, 0x3000, 2, FUTEX_OWNER_INVALID), Ok(2));
    assert_eq!(ctx.futexes.get(&0x3000).unwrap().waiters, 1);
    ctx.futexes.insert(0x4000, FutexState { waiters: 3, owner: FUTEX_OWNER_INVALID });
    assert_eq!(futex_wake(&mut ctx, 0x4000, 0, FUTEX_OWNER_INVALID), Ok(3));
    assert_eq!(ctx.futexes.get(&0x4000).unwrap().waiters, 0);
}

#[test]
fn profile_create_reads_the_whole_record() {
    let mut next_id = 1u64;
    let mut profiles: Vec<Profile> = Vec::new();
    let mut handles = HandleTable::new();
    let mut mem = UserMemory::new(0x1000, 0x100);
    mem.bytes[1] = 0x01;
    assert_eq!(sys_profile_create_impl(&mut next_id, &mut profiles, &mut handles, &mut mem, 0, 0x1000, 0x1080), err_to_ret(RX_ERR_INVALID_ARGS));
    mem.bytes[1] = 0;
    assert_eq!(sys_profile_create_impl(&mut next_id, &mut profiles, &mut handles, &mut mem, 0, 0x10D0, 0x1080), err_to_ret(RX_ERR_INVALID_ARGS));
    mem.bytes[0] = 0x01;
    mem.bytes[8..16].copy_from_slice(&0xF0u64.to_le_bytes());
    mem.bytes[16..20].copy_from_slice(&7u32.to_le_bytes());
    assert_eq!(sys_profile_create_impl(&mut next_id, &mut profiles, &mut handles, &mut mem, 0, 0x1000, 0x1080), 0);
    assert_eq!(profiles.len(), 1);
    assert_eq!(profiles[0].id, 1);
    assert_eq!(profiles[0].info.flags, 1);
    assert_eq!(profiles[0].info.cpu_affinity, 0xF0);
    assert_eq!(profiles[0].info.priority, 7);
    let v = u32::from_le_bytes([mem.bytes[0x80], mem.bytes[0x81], mem.bytes[0x82], mem.bytes[0x83]]);
    assert_eq!(handles.get(v).unwrap().id, profiles[0].id);
}

#[test]
fn handle_basic_info_into_a_small_buffer() {
    let mut mem = UserMemory::new(0x1000, 0x100);
    let before = mem.bytes.clone();
    let r = sys_object_get_info_impl(&mut mem, 1, info_topic::HANDLE_BASIC, 0x1000, 8, 0, 0);
    assert_eq!(r, err_to_ret(RX_ERR_BUFFER_TOO_SMALL));
    assert_eq!(mem.bytes, before);
}

#[test]
fn channel_messages_carry_transferred_handles() {
    let mut sub = ChannelSubsystem::new();
    let mut handles = HandleTable::new();
    let mut mem = UserMemory::new(0x1000, 0x100);
    let packed = sys_channel_create_impl(&mut sub, &mut handles, 0) as u64;
    let (a, b) = (packed as u32, (packed >> 32) as u32);
    assert!(handles.install(500, Handle::new(ObjectType::Event, 9, RIGHTS_TRANSFER)).is_ok());
    assert!(handles.install(501, Handle::new(ObjectType::Event, 10, RIGHTS_READ)).is_ok());
    mem.bytes[0] = 0xAB;
    mem.bytes[0x10..0x14].copy_from_slice(&500u32.to_le_bytes());
    mem.bytes[0x14..0x18].copy_from_slice(&501u32.to_le_bytes());
    mem.bytes[0x18..0x1C].copy_from_slice(&777u32.to_le_bytes());
    assert_eq!(sys_channel_write_impl(&mut sub, &mut handles, &mem, a, 0, 0x1000, 1, 0x1014, 1), err_to_ret(RX_ERR_ACCESS_DENIED));
    assert_eq!(sys_channel_write_impl(&mut sub, &mut handles, &mem, a, 0, 0x1000, 1, 0x1018, 1), err_to_ret(RX_ERR_BAD_HANDLE));
    assert!(handles.get(501).is_some());
    assert_eq!(sys_channel_write_impl(&mut sub, &mut handles, &mem, a, 0, 0x1000, 1, 0x1010, 1), 1);
    assert!(handles.get(500).is_none());
    assert!(handles.get(501).is_some());
    let r = sys_channel_read_impl(&mut sub, &handles, &mut mem, b, 0, 0x1040, 16, 0x1060, 4);
    assert_eq!(r, ((1u64 << 32) | 1) as isize);
    assert_eq!(mem.bytes[0x40], 0xAB);
}

#[test]
fn channel_create_registers_two_peers_and_read_reports_counts() {
    let mut sub = ChannelSubsystem::new();
    let mut handles = HandleTable::new();
    let mut mem = UserMemory::new(0x2000, 0x100);
    let count = sub.registry.count();
    let r = sys_channel_create_impl(&mut sub, &mut handles, 0);
    assert!(r >= 0);
    let (a, b) = ((r as u64 & 0xFFFF_FFFF) as u32, (r as u64 >> 32) as u32);
    assert_ne!(a, b);
    assert_eq!(sub.registry.count(), count + 2);
    assert_eq!(sub.registry.get(a as u64).unwrap().peer, b as u64);
    assert_eq!(sub.registry.get(b as u64).unwrap().peer, a as u64);
    mem.bytes[0..5].copy_from_slice(b"hello");
    assert_eq!(sys_channel_write_impl(&mut sub, &mut handles, &mem, a, 0, 0x2000, 5, 0, 0), 5);
    let r = sys_channel_read_impl(&mut sub, &handles, &mut mem, b, 0, 0x2080, 16, 0, 0);
    assert!(r >= 0);
    assert_eq!(r as u64 & 0xFFFF_FFFF, 5);
    assert_eq!(r as u64 >> 32, 0);
    assert_eq!(&mem.bytes[0x80..0x85], b"hello");
}
