//! System syscalls: metrics, power control and kexec-style reboot into a
//! new kernel, all gated on the root resource.
use vstd::prelude::*;
use crate::status::{Status, RX_ERR_ACCESS_DENIED, RX_ERR_INVALID_ARGS};
use crate::usercopy::{UserMemory, le_bytes, push_le};
use crate::{SyscallRet, err_to_ret, ok_to_ret};

verus! {

/// A power control command.
#[derive(Clone, Copy, Debug, PartialEq, Eq, Structural)]
pub enum PowerctlCmd {
    EnableAllCpus,
    DisableAllCpusButPrimary,
    AcpiTransitionSState,
    X86SetPkgPl1,
    Reboot,
    RebootBootloader,
    RebootRecovery,
    Shutdown,
}

/// The number of each power control command.
pub open spec fn powerctl_raw(c: PowerctlCmd) -> u32 {
    match c {
        PowerctlCmd::EnableAllCpus => 1,
        PowerctlCmd::DisableAllCpusButPrimary => 2,
        PowerctlCmd::AcpiTransitionSState => 3,
        PowerctlCmd::X86SetPkgPl1 => 4,
        PowerctlCmd::Reboot => 5,
        PowerctlCmd::RebootBootloader => 6,
        PowerctlCmd::RebootRecovery => 7,
        PowerctlCmd::Shutdown => 8,
    }
}

/// The command numbered `raw`; an unknown number means reboot.
pub open spec fn powerctl_from_raw(raw: u32) -> PowerctlCmd {
    if raw == 1 {
        PowerctlCmd::EnableAllCpus
    } else if raw == 2 {
        PowerctlCmd::DisableAllCpusButPrimary
    } else if raw == 3 {
        PowerctlCmd::AcpiTransitionSState
    } else if raw == 4 {
        PowerctlCmd::X86SetPkgPl1
    } else if raw == 6 {
        PowerctlCmd::RebootBootloader
    } else if raw == 7 {
        PowerctlCmd::RebootRecovery
    } else if raw == 8 {
        PowerctlCmd::Shutdown
    } else {
        PowerctlCmd::Reboot
    }
}

impl PowerctlCmd {
    /// The command numbered `raw` (see `powerctl_from_raw`).
    pub fn from_raw(raw: u32) -> (c: PowerctlCmd)
        ensures
            c == powerctl_from_raw(raw),
    {
        match raw {
            1 => PowerctlCmd::EnableAllCpus,
            2 => PowerctlCmd::DisableAllCpusButPrimary,
            3 => PowerctlCmd::AcpiTransitionSState,
            4 => PowerctlCmd::X86SetPkgPl1,
            5 => PowerctlCmd::Reboot,
            6 => PowerctlCmd::RebootBootloader,
            7 => PowerctlCmd::RebootRecovery,
            8 => PowerctlCmd::Shutdown,
            _ => PowerctlCmd::Reboot,
        }
    }

    /// The command's number.
    pub fn into_raw(self) -> (n: u32)
        ensures
            n == powerctl_raw(self),
    {
        match self {
            PowerctlCmd::EnableAllCpus => 1,
            PowerctlCmd::DisableAllCpusButPrimary => 2,
            PowerctlCmd::AcpiTransitionSState => 3,
            PowerctlCmd::X86SetPkgPl1 => 4,
            PowerctlCmd::Reboot => 5,
            PowerctlCmd::RebootBootloader => 6,
            PowerctlCmd::RebootRecovery => 7,
            PowerctlCmd::Shutdown => 8,
        }
    }
}

/// Law: a command's number gives the command back.
pub proof fn lemma_powerctl_roundtrip(c: PowerctlCmd)
    ensures
        powerctl_from_raw(powerctl_raw(c)) == c,
{
}

/// Size of a `SystemMetrics` record in user memory.
pub const SYSTEM_METRICS_SIZE: usize = 56;

/// Memory, CPU and load figures of the system.
#[derive(Clone, Copy, Debug)]
pub struct SystemMetrics {
    pub total_memory: u64,
    pub free_memory: u64,
    pub num_cpus: u32,
    pub cpu_mask: u64,
    pub uptime_ns: u64,
    pub load_average_1min: u32,
    pub load_average_5min: u32,
    pub load_average_15min: u32,
}

impl SystemMetrics {
    /// The record as laid out in user memory, little-endian, with the
    /// alignment padding after `num_cpus` and at the end.
    pub open spec fn layout(&self) -> Seq<u8> {
        le_bytes(self.total_memory, 8) + le_bytes(self.free_memory, 8) + le_bytes(self.num_cpus as u64, 4) + le_bytes(0, 4)
            + le_bytes(self.cpu_mask, 8) + le_bytes(self.uptime_ns, 8) + le_bytes(self.load_average_1min as u64, 4)
            + le_bytes(self.load_average_5min as u64, 4) + le_bytes(self.load_average_15min as u64, 4) + le_bytes(0, 4)
    }

    /// The record laid out in user memory.
    pub fn encode(&self) -> (b: Vec<u8>)
        ensures
            b@ == self.layout(),
    {
        let mut b: Vec<u8> = Vec::new();
        push_le(&mut b, self.total_memory, 8);
        push_le(&mut b, self.free_memory, 8);
        push_le(&mut b, self.num_cpus as u64, 4);
        push_le(&mut b, 0, 4);
        push_le(&mut b, self.cpu_mask, 8);
        push_le(&mut b, self.uptime_ns, 8);
        push_le(&mut b, self.load_average_1min as u64, 4);
        push_le(&mut b, self.load_average_5min as u64, 4);
        push_le(&mut b, self.load_average_15min as u64, 4);
        push_le(&mut b, 0, 4);
        proof {
            assert(b@ =~= self.layout());
        }
        b
    }
}

/// The metrics reported: one CPU (mask 1) and nothing else measured.
pub open spec fn current_metrics() -> SystemMetrics {
    SystemMetrics {
        total_memory: 0,
        free_memory: 0,
        num_cpus: 1,
        cpu_mask: 1,
        uptime_ns: 0,
        load_average_1min: 0,
        load_average_5min: 0,
        load_average_15min: 0,
    }
}

/// The system metrics (see `current_metrics`).
pub fn get_system_metrics() -> (m: SystemMetrics)
    ensures
        m == current_metrics(),
{
    SystemMetrics {
        total_memory: 0,
        free_memory: 0,
        num_cpus: 1,
        cpu_mask: 1,
        uptime_ns: 0,
        load_average_1min: 0,
        load_average_5min: 0,
        load_average_15min: 0,
    }
}

/// Kind of a resource handle.
#[derive(Clone, Copy, Debug, PartialEq, Eq, Structural)]
pub enum ResourceKind {
    Root,
    Invalid,
}

/// Result of checking that `handle` is a resource of kind `expected_kind`:
/// only handle 0, the root resource, is accepted, and only as root.
pub open spec fn resource_check(handle: u32, expected_kind: ResourceKind) -> Result<(), Status> {
    if handle != 0 {
        Err(RX_ERR_ACCESS_DENIED)
    } else if expected_kind == ResourceKind::Root {
        Ok(())
    } else {
        Err(RX_ERR_INVALID_ARGS)
    }
}

/// Check a resource handle (see `resource_check`).
pub fn validate_resource(handle: u32, expected_kind: ResourceKind) -> (r: Result<(), Status>)
    ensures
        r == resource_check(handle, expected_kind),
{
    if handle != 0 {
        return Err(RX_ERR_ACCESS_DENIED);
    }
    match expected_kind {
        ResourceKind::Root => Ok(()),
        _ => Err(RX_ERR_INVALID_ARGS),
    }
}

/// Copy the system metrics to user memory at `metrics_out`.
pub fn sys_system_get_metrics_impl(mem: &mut UserMemory, metrics_out: usize) -> (r: SyscallRet)
    ensures
        final(mem).base == old(mem).base,
        old(mem).range_ok(metrics_out, SYSTEM_METRICS_SIZE) ==> r == 0 && final(mem).bytes@ == old(mem).written(metrics_out, current_metrics().layout()),
        !old(mem).range_ok(metrics_out, SYSTEM_METRICS_SIZE) ==> r == -RX_ERR_INVALID_ARGS && *final(mem) == *old(mem),
{
    let metrics = get_system_metrics();
    let bytes = metrics.encode();
    assert(bytes@.len() == SYSTEM_METRICS_SIZE);
    match mem.copy_to_user(metrics_out, bytes.as_slice()) {
        Ok(()) => ok_to_ret(0),
        Err(err) => err_to_ret(err),
    }
}

/// Carry out power command `cmd` (see `PowerctlCmd::from_raw`) with the
/// root resource: the ACPI sleep-state and x86 power-limit commands read a
/// 4-byte argument from user memory at `arg`; the commands themselves are
/// not acted on here.
pub fn sys_system_powerctl_impl(mem: &UserMemory, resource_handle: u32, cmd: u32, arg: usize) -> (r: SyscallRet)
    ensures
        r == match resource_check(resource_handle, ResourceKind::Root) {
            Err(e) => -e as isize,
            Ok(()) => {
                let c = powerctl_from_raw(cmd);
                if (c == PowerctlCmd::AcpiTransitionSState || c == PowerctlCmd::X86SetPkgPl1) && !mem.range_ok(arg, 4) {
                    -RX_ERR_INVALID_ARGS as isize
                } else {
                    0
                }
            },
        },
{
    match validate_resource(resource_handle, ResourceKind::Root) {
        Ok(()) => {},
        Err(err) => {
            return err_to_ret(err);
        },
    }
    let command = PowerctlCmd::from_raw(cmd);
    match command {
        PowerctlCmd::EnableAllCpus => ok_to_ret(0),
        PowerctlCmd::DisableAllCpusButPrimary => ok_to_ret(0),
        PowerctlCmd::Reboot => ok_to_ret(0),
        PowerctlCmd::RebootBootloader => ok_to_ret(0),
        PowerctlCmd::RebootRecovery => ok_to_ret(0),
        PowerctlCmd::Shutdown => ok_to_ret(0),
        PowerctlCmd::AcpiTransitionSState => {
            match mem.read_le(arg, 4) {
                Ok(_s_state) => ok_to_ret(0),
                Err(err) => err_to_ret(err),
            }
        },
        PowerctlCmd::X86SetPkgPl1 => {
            match mem.read_le(arg, 4) {
                Ok(_pl1) => ok_to_ret(0),
                Err(err) => err_to_ret(err),
            }
        },
    }
}

/// Most bytes of boot data a payload read returns.
pub const BOOTDATA_PLATFORM_EXTRA_BYTES: usize = 16384;

/// Read the boot data payload for a new kernel into `buffer_size` bytes of
/// user memory at `buffer` (the root resource is needed, and at most
/// `BOOTDATA_PLATFORM_EXTRA_BYTES`); no boot data is kept, so the bytes are
/// zeros.  The result is the number of bytes written.
pub fn sys_system_mexec_payload_get_impl(mem: &mut UserMemory, resource_handle: u32, buffer: usize, buffer_size: usize) -> (r: SyscallRet)
    ensures
        final(mem).base == old(mem).base,
        match resource_check(resource_handle, ResourceKind::Root) {
            Err(e) => r == -e && *final(mem) == *old(mem),
            Ok(()) => if buffer_size > BOOTDATA_PLATFORM_EXTRA_BYTES || !old(mem).range_ok(buffer, buffer_size) {
                r == -RX_ERR_INVALID_ARGS && *final(mem) == *old(mem)
            } else {
                r == buffer_size && final(mem).bytes@ == old(mem).written(buffer, Seq::new(buffer_size as nat, |i: int| 0u8))
            },
        },
{
    match validate_resource(resource_handle, ResourceKind::Root) {
        Ok(()) => {},
        Err(err) => {
            return err_to_ret(err);
        },
    }
    if buffer_size > BOOTDATA_PLATFORM_EXTRA_BYTES {
        return err_to_ret(RX_ERR_INVALID_ARGS);
    }
    let mut kernel_buffer: Vec<u8> = Vec::new();
    let mut i: usize = 0;
    while i < buffer_size
        invariant
            i <= buffer_size,
            kernel_buffer@ == Seq::new(i as nat, |k: int| 0u8),
        decreases buffer_size - i,
    {
        kernel_buffer.push(0);
        i = i + 1;
        proof {
            assert(kernel_buffer@ =~= Seq::new(i as nat, |k: int| 0u8));
        }
    }
    match mem.copy_to_user(buffer, kernel_buffer.as_slice()) {
        Ok(()) => ok_to_ret(buffer_size),
        Err(err) => err_to_ret(err),
    }
}

/// Boot into a new kernel held in `kernel_vmo` with `bootimage_vmo`: the
/// root resource is needed; nothing more is done here.
pub fn sys_system_mexec_impl(resource_handle: u32, kernel_vmo: u32, bootimage_vmo: u32) -> (r: SyscallRet)
    ensures
        r == match resource_check(resource_handle, ResourceKind::Root) {
            Err(e) => -e as isize,
            Ok(()) => 0,
        },
{
    match validate_resource(resource_handle, ResourceKind::Root) {
        Ok(()) => ok_to_ret(0),
        Err(err) => err_to_ret(err),
    }
}

/// System syscall statistics.
#[derive(Clone, Copy, Debug)]
pub struct SystemStats {
    pub uptime_ns: u64,
    pub num_reboots: u64,
    pub power_events: u64,
}

/// Current system statistics (none are tracked).
pub fn get_stats() -> (st: SystemStats)
    ensures
        st.uptime_ns == 0,
        st.num_reboots == 0,
        st.power_events == 0,
{
    SystemStats { uptime_ns: 0, num_reboots: 0, power_events: 0 }
}

/// Initialize the system syscall subsystem (nothing to set up).
pub fn init() {
}

} // verus!
