use rustux_syscalls::status::RX_ERR_INVALID_ARGS;
use rustux_syscalls::usercopy::{decode_le, encode_le, UserMemory};

#[test]
fn user_copy_reads_back_what_was_written() {
    let mut mem = UserMemory::new(0x2000, 32);
    assert_eq!(mem.copy_to_user(0x2004, &[1, 2, 3]), Ok(()));
    assert_eq!(mem.copy_from_user(0x2004, 3), Ok(vec![1, 2, 3]));
    assert_eq!(mem.bytes[3], 0);
    assert_eq!(mem.bytes[7], 0);
    assert_eq!(mem.bytes.len(), 32);
}

#[test]
fn user_copy_range_checks() {
    let mut mem = UserMemory::new(0x2000, 32);
    assert_eq!(mem.copy_to_user(0x201F, &[1, 2]), Err(RX_ERR_INVALID_ARGS));
    assert_eq!(mem.copy_from_user(0, 1), Err(RX_ERR_INVALID_ARGS));
    assert_eq!(mem.copy_from_user(0, 0), Ok(vec![]));
    assert_eq!(mem.copy_from_user(0x1FFF, 1), Err(RX_ERR_INVALID_ARGS));
    assert!(mem.check_range(0x2000, 32));
    assert!(!mem.check_range(0x2000, 33));
}

#[test]
fn little_endian_round_trip() {
    let v = 0x0102_0304_0506_0708u64;
    let b = encode_le(v, 8);
    assert_eq!(b, vec![8, 7, 6, 5, 4, 3, 2, 1]);
    assert_eq!(decode_le(&b, 8), v);
    let w = encode_le(0xDEAD_BEEF, 4);
    assert_eq!(decode_le(&w, 4), 0xDEAD_BEEF);
    let mut mem = UserMemory::new(0x2000, 16);
    assert_eq!(mem.write_le(0x2008, v, 8), Ok(()));
    assert_eq!(mem.read_le(0x2008, 8), Ok(v));
    assert_eq!(mem.store_opt(0, 5, 8), Ok(()));
    assert!(mem.bytes[0..8].iter().all(|b| *b == 0));
}
