use rustux_syscalls::ddk_x86::{arch_smc_call_impl, get_stats, SmcParameters, SmcResult};
use rustux_syscalls::err_to_ret;
use rustux_syscalls::status::RX_ERR_NOT_SUPPORTED;

#[test]
fn test_arch_smc_call_not_supported() {
    let result = arch_smc_call_impl(0, 0);
    assert_eq!(result, err_to_ret(RX_ERR_NOT_SUPPORTED));
}

#[test]
fn ddk_x86_test_smc_parameters_default() {
    let params = SmcParameters::default();
    assert_eq!(params.func_id, 0);
    assert_eq!(params.reserved, 0);
    assert_eq!(params.args, [0; 6]);
}

#[test]
fn ddk_x86_test_smc_result_default() {
    let result = SmcResult::default();
    assert_eq!(result.func_id, 0);
    assert_eq!(result.reserved, 0);
    assert_eq!(result.ret_vals, [0; 6]);
}

#[test]
fn x86_smc_stats_zero() {
    assert_eq!(get_stats().total_smc_calls, 0);
}
