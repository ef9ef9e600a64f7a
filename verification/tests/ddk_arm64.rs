use rustux_syscalls::ddk_arm64::{
    arch_smc_call_impl, arm_smccc_smc, get_stats, smc_call_type, smc_calling_convention, ArmSmcResult,
    DdkArm64Stats, SmcParameters, SmcResult,
};
use rustux_syscalls::err_to_ret;
use rustux_syscalls::status::RX_ERR_INVALID_ARGS;
use rustux_syscalls::usercopy::UserMemory;

#[test]
fn ddk_arm64_test_smc_parameters_default() {
    let params = SmcParameters::default();
    assert_eq!(params.func_id, 0);
    assert_eq!(params.secure_os_id, 0);
    assert_eq!(params.client_id, 0);
    assert_eq!(params.args, [0; 6]);
}

#[test]
fn ddk_arm64_test_smc_result_default() {
    let result = SmcResult::default();
    assert_eq!(result.ret_vals, [0; 4]);
}

#[test]
fn test_arm_smc_result_default() {
    let result = ArmSmcResult::default();
    assert_eq!(result.x0, 0);
    assert_eq!(result.x1, 0);
    assert_eq!(result.x2, 0);
    assert_eq!(result.x3, 0);
}

#[test]
fn test_smc_call_type_consts() {
    assert_eq!(smc_call_type::STANDARD, 0x0);
    assert_eq!(smc_call_type::FAST, 0x1);
    assert_eq!(smc_call_type::MASK, 0x1);
}

#[test]
fn test_smc_calling_convention_consts() {
    assert_eq!(smc_calling_convention::SMC32, 0x0 << 30);
    assert_eq!(smc_calling_convention::SMC64, 0x1 << 30);
    assert_eq!(smc_calling_convention::MASK, 0x3 << 30);
}

#[test]
fn test_arm_smccc_smc() {
    let result = arm_smccc_smc(0x84000000, 1, 2, 3, 4, 5, 6, 0);
    assert_eq!(result.x0, 0x84000000);
}

#[test]
fn arm64_smc_call_reads_whole_record_and_writes_whole_result() {
    let mut stats = DdkArm64Stats { total_smc_calls: 0 };
    let mut mem = UserMemory::new(0x1000, 0x100);
    mem.bytes[0] = 0x5A;
    mem.bytes[1] = 0x77;
    mem.bytes[2] = 0x01;
    mem.bytes[3] = 0x84;
    for i in 0..32 {
        mem.bytes[0x40 + i] = 0xEE;
    }
    let r = arch_smc_call_impl(&mut stats, &mut mem, 0x1000, 0x1040);
    assert_eq!(r, 0);
    assert_eq!(&mem.bytes[0x40..0x48], &0x8401_775Au64.to_le_bytes());
    assert!(mem.bytes[0x48..0x60].iter().all(|b| *b == 0));
    assert_eq!(mem.bytes[0x60], 0);
    assert_eq!(get_stats(&stats).total_smc_calls, 1);
}

#[test]
fn arm64_smc_call_needs_whole_records() {
    let mut stats = DdkArm64Stats { total_smc_calls: 0 };
    let mut mem = UserMemory::new(0x1000, 0x60);
    assert_eq!(arch_smc_call_impl(&mut stats, &mut mem, 0x1030, 0x1000), err_to_ret(RX_ERR_INVALID_ARGS));
    assert_eq!(arch_smc_call_impl(&mut stats, &mut mem, 0x1000, 0x1050), err_to_ret(RX_ERR_INVALID_ARGS));
    assert_eq!(stats.total_smc_calls, 2);
}

#[test]
fn arm64_smc_call_bad_pointers_still_counted() {
    let mut stats = DdkArm64Stats { total_smc_calls: u64::MAX };
    let mut mem = UserMemory::new(0x1000, 32);
    assert_eq!(arch_smc_call_impl(&mut stats, &mut mem, 0, 0x1010), err_to_ret(RX_ERR_INVALID_ARGS));
    assert_eq!(stats.total_smc_calls, 0);
    assert_eq!(arch_smc_call_impl(&mut stats, &mut mem, 0x1000, 0x2000), err_to_ret(RX_ERR_INVALID_ARGS));
    assert_eq!(stats.total_smc_calls, 1);
    assert!(mem.bytes.iter().all(|b| *b == 0));
}
