use rustux_syscalls::err_to_ret;
use rustux_syscalls::kobject::HandleTable;
use rustux_syscalls::profile::{profile_flags, sys_object_set_profile_impl, sys_profile_create_impl, Profile, ProfileInfo};
use rustux_syscalls::status::RX_ERR_INVALID_ARGS;
use rustux_syscalls::usercopy::UserMemory;

#[test]
fn test_profile_info_default() {
    let info = ProfileInfo::default();
    assert_eq!(info.flags, 0);
    assert_eq!(info.cpu_affinity, 0);
    assert_eq!(info.priority, 0);
}

#[test]
fn test_profile_flags() {
    assert_eq!(profile_flags::NONE, 0);
    assert_eq!(profile_flags::HAS_CPU_AFFINITY, 0x01);
    assert_eq!(profile_flags::HAS_PRIORITY, 0x02);
    assert_eq!(profile_flags::REALTIME, 0x04);
}

#[test]
fn test_profile_new() {
    let info = ProfileInfo { flags: profile_flags::HAS_PRIORITY, cpu_affinity: 0xFF, priority: 10, ..Default::default() };
    let profile = Profile::new(1, info);
    assert_eq!(profile.info().flags, profile_flags::HAS_PRIORITY);
    assert_eq!(profile.info().priority, 10);
}

#[test]
fn test_profile_refcount() {
    let info = ProfileInfo::default();
    let mut profile = Profile::new(1, info);
    assert_eq!(profile.refcount, 1);
    profile.inc_ref();
    assert_eq!(profile.refcount, 2);
    profile.dec_ref();
    assert_eq!(profile.refcount, 1);
    profile.dec_ref();
    profile.dec_ref();
    assert_eq!(profile.refcount, 0);
}

#[test]
fn profile_create_reads_flags_byte() {
    let mut next_id = 1u64;
    let mut profiles: Vec<Profile> = Vec::new();
    let mut handles = HandleTable::new();
    let mut mem = UserMemory::new(0x1000, 64);
    mem.bytes[0] = profile_flags::REALTIME as u8;
    assert_eq!(sys_profile_create_impl(&mut next_id, &mut profiles, &mut handles, &mut mem, 0, 0x1000, 0x1010), 0);
    assert_eq!(next_id, 2);
    let v = u32::from_le_bytes([mem.bytes[0x10], mem.bytes[0x11], mem.bytes[0x12], mem.bytes[0x13]]);
    assert!(handles.get(v).is_some());
    mem.bytes[0] = 0x08;
    assert_eq!(sys_profile_create_impl(&mut next_id, &mut profiles, &mut handles, &mut mem, 0, 0x1000, 0x1010), err_to_ret(RX_ERR_INVALID_ARGS));
    assert_eq!(next_id, 2);
    assert_eq!(sys_object_set_profile_impl(1, 2, 1), err_to_ret(RX_ERR_INVALID_ARGS));
    assert_eq!(sys_object_set_profile_impl(1, 2, 0), 0);
}
