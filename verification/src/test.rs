//! Syscalls that exercise the syscall path itself: each returns the sum of
//! its arguments.
use vstd::prelude::*;
use crate::{SyscallRet, ok_to_ret};

verus! {

/// The return value for `v`: `v` widened to a usize (sign-extending) and
/// handed back unchanged.
fn int_ret(v: i32) -> (r: SyscallRet)
    ensures
        r == v,
{
    let u = v as usize;
    proof {
        assert(((v as usize) as isize) == (v as isize)) by (bit_vector);
    }
    ok_to_ret(u)
}

/// No arguments: returns 0.
pub fn sys_syscall_test_0_impl() -> (r: SyscallRet)
    ensures
        r == 0,
{
    ok_to_ret(0)
}

/// One argument: returns it.
pub fn sys_syscall_test_1_impl(a: i32) -> (r: SyscallRet)
    ensures
        r == a,
{
    int_ret(a)
}

/// Two arguments: returns their sum.
pub fn sys_syscall_test_2_impl(a: i32, b: i32) -> (r: SyscallRet)
    requires
        i32::MIN <= a + b <= i32::MAX,
    ensures
        r == a + b,
{
    int_ret(a + b)
}

/// Three arguments: returns their sum.
pub fn sys_syscall_test_3_impl(a: i32, b: i32, c: i32) -> (r: SyscallRet)
    requires
        i32::MIN <= a + b <= i32::MAX,
        i32::MIN <= a + b + c <= i32::MAX,
    ensures
        r == a + b + c,
{
    int_ret(a + b + c)
}

/// Four arguments: returns their sum.
pub fn sys_syscall_test_4_impl(a: i32, b: i32, c: i32, d: i32) -> (r: SyscallRet)
    requires
        i32::MIN <= a + b <= i32::MAX,
        i32::MIN <= a + b + c <= i32::MAX,
        i32::MIN <= a + b + c + d <= i32::MAX,
    ensures
        r == a + b + c + d,
{
    int_ret(a + b + c + d)
}

/// Five arguments: returns their sum.
pub fn sys_syscall_test_5_impl(a: i32, b: i32, c: i32, d: i32, e: i32) -> (r: SyscallRet)
    requires
        i32::MIN <= a + b <= i32::MAX,
        i32::MIN <= a + b + c <= i32::MAX,
        i32::MIN <= a + b + c + d <= i32::MAX,
        i32::MIN <= a + b + c + d + e <= i32::MAX,
    ensures
        r == a + b + c + d + e,
{
    int_ret(a + b + c + d + e)
}

/// Six arguments: returns their sum.
pub fn sys_syscall_test_6_impl(a: i32, b: i32, c: i32, d: i32, e: i32, f: i32) -> (r: SyscallRet)
    requires
        i32::MIN <= a + b <= i32::MAX,
        i32::MIN <= a + b + c <= i32::MAX,
        i32::MIN <= a + b + c + d <= i32::MAX,
        i32::MIN <= a + b + c + d + e <= i32::MAX,
        i32::MIN <= a + b + c + d + e + f <= i32::MAX,
    ensures
        r == a + b + c + d + e + f,
{
    int_ret(a + b + c + d + e + f)
}

/// Seven arguments: returns their sum.
pub fn sys_syscall_test_7_impl(a: i32, b: i32, c: i32, d: i32, e: i32, f: i32, g: i32) -> (r: SyscallRet)
    requires
        i32::MIN <= a + b <= i32::MAX,
        i32::MIN <= a + b + c <= i32::MAX,
        i32::MIN <= a + b + c + d <= i32::MAX,
        i32::MIN <= a + b + c + d + e <= i32::MAX,
        i32::MIN <= a + b + c + d + e + f <= i32::MAX,
        i32::MIN <= a + b + c + d + e + f + g <= i32::MAX,
    ensures
        r == a + b + c + d + e + f + g,
{
    int_ret(a + b + c + d + e + f + g)
}

/// Eight arguments: returns their sum.
pub fn sys_syscall_test_8_impl(a: i32, b: i32, c: i32, d: i32, e: i32, f: i32, g: i32, h: i32) -> (r: SyscallRet)
    requires
        i32::MIN <= a + b <= i32::MAX,
        i32::MIN <= a + b + c <= i32::MAX,
        i32::MIN <= a + b + c + d <= i32::MAX,
        i32::MIN <= a + b + c + d + e <= i32::MAX,
        i32::MIN <= a + b + c + d + e + f <= i32::MAX,
        i32::MIN <= a + b + c + d + e + f + g <= i32::MAX,
        i32::MIN <= a + b + c + d + e + f + g + h <= i32::MAX,
    ensures
        r == a + b + c + d + e + f + g + h,
{
    int_ret(a + b + c + d + e + f + g + h)
}

/// The wrapper test syscall: returns the sum of its three arguments.
pub fn sys_syscall_test_wrapper_impl(a: i32, b: i32, c: i32) -> (r: SyscallRet)
    requires
        i32::MIN <= a + b <= i32::MAX,
        i32::MIN <= a + b + c <= i32::MAX,
    ensures
        r == a + b + c,
{
    int_ret(a + b + c)
}

/// Test-syscall statistics.
#[derive(Clone, Copy, Debug)]
pub struct TestStats {
    pub total_test_calls: u64,
}

/// Current test-syscall statistics: calls are not counted.
pub fn get_stats() -> (st: TestStats)
    ensures
        st.total_test_calls == 0,
{
    TestStats { total_test_calls: 0 }
}

/// Bring up the test-syscall subsystem: nothing to set up.
pub fn init() {
}

} // verus!
