use rustux_syscalls::err_to_ret;
use rustux_syscalls::object::{
    info_topic, property, single_record_result, sys_object_get_child_impl, sys_object_get_info_impl,
    sys_object_get_property_impl, sys_object_set_property_impl, HandleBasicInfo, ProcessInfo,
};
use rustux_syscalls::status::{RX_ERR_BUFFER_TOO_SMALL, RX_ERR_INVALID_ARGS, RX_ERR_NOT_SUPPORTED};
use rustux_syscalls::usercopy::UserMemory;

#[test]
fn test_info_topics() {
    assert_eq!(info_topic::HANDLE_VALID, 0x00);
    assert_eq!(info_topic::HANDLE_BASIC, 0x01);
    assert_eq!(info_topic::PROCESS, 0x02);
}

#[test]
fn test_properties() {
    assert_eq!(property::NAME, 0x00);
    assert_eq!(property::PROCESS_DEBUG_ADDR, 0x01);
}

#[test]
fn test_handle_basic_info_size() {
    assert!(core::mem::size_of::<HandleBasicInfo>() >= 24);
}

#[test]
fn test_process_info_size() {
    assert!(core::mem::size_of::<ProcessInfo>() >= 24);
}

#[test]
fn test_single_record_result_buffer_too_small() {
    let mut mem = UserMemory::new(0x1000, 64);
    let rec = [0u8; 16];
    let result = single_record_result(&mut mem, 0x1000, 8, 0, 0, &rec);
    assert!(result.is_err());
    assert_eq!(result.unwrap_err(), RX_ERR_BUFFER_TOO_SMALL);
}

#[test]
fn test_single_record_result_success() {
    let mut mem = UserMemory::new(0x1000, 64);
    let data = 0xDEADBEEFu64.to_le_bytes();
    let result = single_record_result(&mut mem, 0x1000, 16, 0, 0, &data);
    assert!(result.is_ok() || result.unwrap_err() != RX_ERR_BUFFER_TOO_SMALL);
    assert_eq!(&mem.bytes[0..8], &data);
}

#[test]
fn object_info_basic_record() {
    let mut mem = UserMemory::new(0x1000, 128);
    let r = sys_object_get_info_impl(&mut mem, 7, info_topic::HANDLE_BASIC, 0x1000, 64, 0x1040, 0x1048);
    assert_eq!(r, 0);
    assert_eq!(&mem.bytes[0..8], &7u64.to_le_bytes());
    assert_eq!(&mem.bytes[8..12], &0xFFFFu32.to_le_bytes());
    assert_eq!(&mem.bytes[0x40..0x48], &1u64.to_le_bytes());
    assert_eq!(&mem.bytes[0x48..0x50], &1u64.to_le_bytes());
    assert_eq!(sys_object_get_info_impl(&mut mem, 7, 0x99, 0x1000, 64, 0, 0), err_to_ret(RX_ERR_NOT_SUPPORTED));
    assert_eq!(sys_object_get_info_impl(&mut mem, 7, info_topic::HANDLE_VALID, 0, 0, 0, 0), 0);
    assert_eq!(sys_object_get_info_impl(&mut mem, 7, info_topic::HANDLE_BASIC, 0x1000, 4, 0, 0), err_to_ret(RX_ERR_BUFFER_TOO_SMALL));
}

#[test]
fn object_properties_read_and_write() {
    let mut mem = UserMemory::new(0x1000, 64);
    for b in mem.bytes.iter_mut() {
        *b = 0xAA;
    }
    assert_eq!(sys_object_get_property_impl(&mut mem, 1, property::NAME, 0x1000, 32), 0);
    assert!(mem.bytes[0..32].iter().all(|b| *b == 0));
    assert_eq!(mem.bytes[32], 0xAA);
    assert_eq!(sys_object_get_property_impl(&mut mem, 1, property::PROCESS_DEBUG_ADDR, 0x1000, 4), err_to_ret(RX_ERR_BUFFER_TOO_SMALL));
    assert_eq!(sys_object_get_property_impl(&mut mem, 1, property::NAME, 0, 32), err_to_ret(RX_ERR_INVALID_ARGS));
    assert_eq!(sys_object_set_property_impl(&mem, 1, property::JOB_KILL_ON_OOM, 0x1000, 8), 0);
    mem.bytes[0] = 2;
    assert_eq!(sys_object_set_property_impl(&mem, 1, property::JOB_KILL_ON_OOM, 0x1000, 8), err_to_ret(RX_ERR_INVALID_ARGS));
    assert_eq!(sys_object_set_property_impl(&mem, 1, property::NAME, 0x1000, 100), 0);
    assert_eq!(sys_object_get_child_impl(0, 0x1_0000_0005, 0), 5);
}
