use rustux_syscalls::test::{
    sys_syscall_test_0_impl, sys_syscall_test_1_impl, sys_syscall_test_2_impl, sys_syscall_test_3_impl,
    sys_syscall_test_4_impl, sys_syscall_test_5_impl, sys_syscall_test_6_impl, sys_syscall_test_7_impl,
    sys_syscall_test_8_impl, sys_syscall_test_wrapper_impl,
};

#[test]
fn test_syscall_test_0() {
    assert_eq!(sys_syscall_test_0_impl(), 0);
}

#[test]
fn test_syscall_test_1() {
    assert_eq!(sys_syscall_test_1_impl(42), 42);
}

#[test]
fn test_syscall_test_2() {
    assert_eq!(sys_syscall_test_2_impl(1, 2), 3);
}

#[test]
fn test_syscall_test_3() {
    assert_eq!(sys_syscall_test_3_impl(1, 2, 3), 6);
}

#[test]
fn test_syscall_test_4() {
    assert_eq!(sys_syscall_test_4_impl(1, 2, 3, 4), 10);
}

#[test]
fn test_syscall_test_5() {
    assert_eq!(sys_syscall_test_5_impl(1, 2, 3, 4, 5), 15);
}

#[test]
fn test_syscall_test_6() {
    assert_eq!(sys_syscall_test_6_impl(1, 2, 3, 4, 5, 6), 21);
}

#[test]
fn test_syscall_test_7() {
    assert_eq!(sys_syscall_test_7_impl(1, 2, 3, 4, 5, 6, 7), 28);
}

#[test]
fn test_syscall_test_8() {
    assert_eq!(sys_syscall_test_8_impl(1, 2, 3, 4, 5, 6, 7, 8), 36);
}

#[test]
fn test_syscall_test_wrapper() {
    assert_eq!(sys_syscall_test_wrapper_impl(10, 20, 30), 60);
}

#[test]
fn syscall_test_negative_sums() {
    assert_eq!(sys_syscall_test_1_impl(-5), -5);
    assert_eq!(sys_syscall_test_2_impl(-7, 3), -4);
    assert_eq!(sys_syscall_test_3_impl(i32::MIN, 0, 0), i32::MIN as isize);
}
