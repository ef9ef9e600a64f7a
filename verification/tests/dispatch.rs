use rustux_syscalls::status::{RX_ERR_INVALID_ARGS, RX_ERR_NOT_SUPPORTED, RX_ERR_OUT_OF_RANGE};
use rustux_syscalls::usercopy::UserMemory;
use rustux_syscalls::{amd64_syscall_entry, arm64_syscall_entry, err_to_ret, riscv_syscall_entry, syscall_dispatch, Kernel, SyscallArgs};

fn kernel() -> Kernel {
    Kernel::new(UserMemory::new(0x1000, 256), 1)
}

#[test]
fn dispatch_unknown_number_not_supported() {
    let mut k = kernel();
    assert_eq!(syscall_dispatch(&mut k, SyscallArgs::new(0x99, [0; 6])), err_to_ret(RX_ERR_NOT_SUPPORTED));
    assert_eq!(arm64_syscall_entry(&mut k, 0, 0, 0, 0, 0, 0, 0xFFFF), err_to_ret(RX_ERR_NOT_SUPPORTED));
}

#[test]
fn dispatch_clock_and_close() {
    let mut k = kernel();
    assert_eq!(syscall_dispatch(&mut k, SyscallArgs::new(0x40, [0; 6])), 0);
    assert_eq!(syscall_dispatch(&mut k, SyscallArgs::new(0x40, [1, 0, 0, 0, 0, 0])), err_to_ret(RX_ERR_INVALID_ARGS));
    assert_eq!(syscall_dispatch(&mut k, SyscallArgs::new(0x7, [5, 0, 0, 0, 0, 0])), 0);
}

#[test]
fn dispatch_vmo_create_write_read() {
    let mut k = kernel();
    let h = syscall_dispatch(&mut k, SyscallArgs::new(0x10, [0x1000, 0, 0, 0, 0, 0]));
    assert!(h > 0);
    assert!(k.handles.get(h as u32).is_some());
    k.mem.bytes[0..3].copy_from_slice(&[7, 8, 9]);
    let w = syscall_dispatch(&mut k, SyscallArgs::new(0x12, [h as usize, 0x1000, 0, 3, 0, 0]));
    assert!(w < 0);
}

#[test]
fn dispatch_event_and_timer() {
    let mut k = kernel();
    let e = amd64_syscall_entry(&mut k, 1, 0, 0, 0, 0, 0, 0x23);
    assert!(e > 0);
    assert!(k.events.events.get(e as u64).unwrap().is_signaled());
    let t = riscv_syscall_entry(&mut k, 0, 0, 0, 0, 0, 0, 0x41);
    assert_eq!(t, 0);
    assert_eq!(syscall_dispatch(&mut k, SyscallArgs::new(0x42, [t as usize, 100, 0, 0, 0, 0])), 0);
    assert_eq!(syscall_dispatch(&mut k, SyscallArgs::new(0x43, [t as usize, 0, 0, 0, 0, 0])), 0);
}

#[test]
fn dispatch_refuses_overflowing_ranges() {
    let mut k = kernel();
    assert_eq!(syscall_dispatch(&mut k, SyscallArgs::new(0x15, [0, usize::MAX, 2, 0, 0, 0])), err_to_ret(RX_ERR_OUT_OF_RANGE));
    assert_eq!(syscall_dispatch(&mut k, SyscallArgs::new(0x14, [0, 0, 0, 0, 0, usize::MAX])), err_to_ret(RX_ERR_OUT_OF_RANGE));
}

#[test]
fn dispatch_thread_and_job() {
    let mut k = kernel();
    assert_eq!(syscall_dispatch(&mut k, SyscallArgs::new(0x3, [0, 0, 0, 0, 0, 0])), 1);
    assert_eq!(syscall_dispatch(&mut k, SyscallArgs::new(0x4, [1, 0x4000, 0, 0, 0, 0])), 0);
    assert!(syscall_dispatch(&mut k, SyscallArgs::new(0x30, [0, 0, 0, 0, 0, 0])) > 0);
    assert_eq!(syscall_dispatch(&mut k, SyscallArgs::new(0x5, [3, 0, 0, 0, 0, 0])), 0);
}
