//! Hypervisor syscalls: guests and their virtual CPUs.  Guests and virtual
//! CPUs get ids from counters of their own; their handles are those ids.
use vstd::prelude::*;
use crate::status::{Status, RX_ERR_ACCESS_DENIED, RX_ERR_INVALID_ARGS};
use crate::usercopy::{UserMemory, stored_le};
use crate::{SyscallRet, err_to_ret, ok_to_ret};

pub mod trap_kind;
pub mod vcpu_state;

verus! {

/// Resource kind of the hypervisor resource.
pub const ZX_RSRC_KIND_HYPERVISOR: u32 = 4;

/// Most guests the system is sized for.
pub const MAX_GUESTS: usize = 128;

/// Most virtual CPUs the system is sized for.
pub const MAX_VCPUS: usize = 512;

/// Size of a virtual CPU state record, in bytes.
pub const VCPU_STATE_SIZE: usize = 512;

/// Register state of a virtual CPU.
#[derive(Clone, Copy, Debug)]
pub struct VcpuState {
    pub regs: [u64; 64],
}

/// The id counters of guests and virtual CPUs.
pub struct Hypervisor {
    pub next_guest_id: u64,
    pub next_vcpu_id: u64,
}

impl Hypervisor {
    /// Both counters start at 1.
    pub fn new() -> (h: Hypervisor)
        ensures
            h.next_guest_id == 1,
            h.next_vcpu_id == 1,
    {
        Hypervisor { next_guest_id: 1, next_vcpu_id: 1 }
    }

    /// Take the next guest id; the counter wraps.
    fn alloc_guest_id(&mut self) -> (id: u64)
        ensures
            id == old(self).next_guest_id,
            final(self).next_guest_id == old(self).next_guest_id.wrapping_add(1),
            final(self).next_vcpu_id == old(self).next_vcpu_id,
    {
        let id = self.next_guest_id;
        self.next_guest_id = id.wrapping_add(1);
        id
    }

    /// Take the next virtual CPU id; the counter wraps.
    fn alloc_vcpu_id(&mut self) -> (id: u64)
        ensures
            id == old(self).next_vcpu_id,
            final(self).next_vcpu_id == old(self).next_vcpu_id.wrapping_add(1),
            final(self).next_guest_id == old(self).next_guest_id,
    {
        let id = self.next_vcpu_id;
        self.next_vcpu_id = id.wrapping_add(1);
        id
    }
}

/// Check a hypervisor resource handle: only the root resource (0) is
/// accepted.
fn validate_hypervisor_resource(handle: u32) -> (r: Result<(), Status>)
    ensures
        r == if handle == 0 { Ok::<(), Status>(()) } else { Err(RX_ERR_ACCESS_DENIED) },
{
    if handle != 0 {
        return Err(RX_ERR_ACCESS_DENIED);
    }
    Ok(())
}

/// Create a guest (options must be 0, the resource must be the root one).
/// It takes the next guest id, stored as 8 bytes at `guest_handle_out`;
/// its address space handle, the id plus one, is stored as 8 bytes at
/// `vmar_handle_out`.  A zero pointer is skipped; a store that fails ends
/// the call with its error.
pub fn sys_guest_create_impl(hv: &mut Hypervisor, mem: &mut UserMemory, resource_handle: u32, options: u32, guest_handle_out: usize, vmar_handle_out: usize) -> (r: SyscallRet)
    requires
        vmar_handle_out != 0 ==> old(hv).next_guest_id < u64::MAX,
    ensures
        final(mem).base == old(mem).base,
        final(hv).next_vcpu_id == old(hv).next_vcpu_id,
        options != 0 ==> r == -RX_ERR_INVALID_ARGS && *final(mem) == *old(mem) && *final(hv) == *old(hv),
        options == 0 && resource_handle != 0 ==> r == -RX_ERR_ACCESS_DENIED && *final(mem) == *old(mem) && *final(hv) == *old(hv),
        options == 0 && resource_handle == 0 ==> ({
            let id = old(hv).next_guest_id;
            let m1 = stored_le(old(mem).bytes@, old(mem).base, guest_handle_out, id, 8);
            &&& final(hv).next_guest_id == id.wrapping_add(1)
            &&& if guest_handle_out != 0 && !old(mem).range_ok(guest_handle_out, 8) {
                r == -RX_ERR_INVALID_ARGS && final(mem).bytes@ == old(mem).bytes@
            } else if vmar_handle_out != 0 && !old(mem).range_ok(vmar_handle_out, 8) {
                r == -RX_ERR_INVALID_ARGS && final(mem).bytes@ == m1
            } else {
                r == 0 && final(mem).bytes@ == stored_le(m1, old(mem).base, vmar_handle_out, (id + 1) as u64, 8)
            }
        }),
{
    if options != 0 {
        return err_to_ret(RX_ERR_INVALID_ARGS);
    }
    if let Err(err) = validate_hypervisor_resource(resource_handle) {
        return err_to_ret(err);
    }
    let guest_id = hv.alloc_guest_id();
    if let Err(err) = mem.store_opt(guest_handle_out, guest_id, 8) {
        return err_to_ret(err);
    }
    if vmar_handle_out != 0 {
        let vmar_id = guest_id + 1;
        if let Err(err) = mem.write_le(vmar_handle_out, vmar_id, 8) {
            return err_to_ret(err);
        }
    }
    ok_to_ret(0)
}

/// Trap a guest address range: accepted, nothing is trapped.
pub fn sys_guest_set_trap_impl(handle_val: u32, kind: u32, addr: u64, size: usize, port_handle: u32, key: u64) -> (r: SyscallRet)
    ensures
        r == 0,
{
    ok_to_ret(0)
}

/// Create a virtual CPU (options must be 0): it takes the next virtual CPU
/// id, stored as 8 bytes at `handle_out` unless that is zero.
pub fn sys_vcpu_create_impl(hv: &mut Hypervisor, mem: &mut UserMemory, guest_handle: u32, options: u32, entry: u64, handle_out: usize) -> (r: SyscallRet)
    ensures
        final(mem).base == old(mem).base,
        final(hv).next_guest_id == old(hv).next_guest_id,
        options != 0 ==> r == -RX_ERR_INVALID_ARGS && *final(mem) == *old(mem) && *final(hv) == *old(hv),
        options == 0 ==> final(hv).next_vcpu_id == old(hv).next_vcpu_id.wrapping_add(1),
        options == 0 && handle_out != 0 && !old(mem).range_ok(handle_out, 8) ==> r == -RX_ERR_INVALID_ARGS
            && *final(mem) == *old(mem),
        options == 0 && (handle_out == 0 || old(mem).range_ok(handle_out, 8)) ==> r == 0
            && final(mem).bytes@ == stored_le(old(mem).bytes@, old(mem).base, handle_out, old(hv).next_vcpu_id, 8),
{
    if options != 0 {
        return err_to_ret(RX_ERR_INVALID_ARGS);
    }
    let vcpu_id = hv.alloc_vcpu_id();
    match mem.store_opt(handle_out, vcpu_id, 8) {
        Ok(()) => ok_to_ret(0),
        Err(err) => err_to_ret(err),
    }
}

/// Resume a virtual CPU: an empty exit packet (8 zero bytes) is stored at
/// `packet_out` unless that is zero.
pub fn sys_vcpu_resume_impl(mem: &mut UserMemory, handle_val: u32, packet_out: usize) -> (r: SyscallRet)
    ensures
        final(mem).base == old(mem).base,
        packet_out != 0 && !old(mem).range_ok(packet_out, 8) ==> r == -RX_ERR_INVALID_ARGS && *final(mem) == *old(mem),
        (packet_out == 0 || old(mem).range_ok(packet_out, 8)) ==> r == 0
            && final(mem).bytes@ == stored_le(old(mem).bytes@, old(mem).base, packet_out, 0, 8),
{
    match mem.store_opt(packet_out, 0, 8) {
        Ok(()) => ok_to_ret(0),
        Err(err) => err_to_ret(err),
    }
}

/// Raise interrupt `vector` on a virtual CPU: accepted.
pub fn sys_vcpu_interrupt_impl(handle_val: u32, vector: u32) -> (r: SyscallRet)
    ensures
        r == 0,
{
    ok_to_ret(0)
}

/// Read virtual CPU state: at most one state record; the state reads as
/// zeros, `buffer_size` of which are stored at `buffer`.
pub fn sys_vcpu_read_state_impl(mem: &mut UserMemory, handle_val: u32, kind: u32, buffer: usize, buffer_size: usize) -> (r: SyscallRet)
    ensures
        final(mem).base == old(mem).base,
        buffer_size > VCPU_STATE_SIZE ==> r == -RX_ERR_INVALID_ARGS && *final(mem) == *old(mem),
        buffer_size <= VCPU_STATE_SIZE && !old(mem).range_ok(buffer, buffer_size) ==> r == -RX_ERR_INVALID_ARGS
            && *final(mem) == *old(mem),
        buffer_size <= VCPU_STATE_SIZE && old(mem).range_ok(buffer, buffer_size) ==> r == 0
            && final(mem).bytes@ == old(mem).written(buffer, Seq::new(buffer_size as nat, |i: int| 0u8)),
{
    if buffer_size > VCPU_STATE_SIZE {
        return err_to_ret(RX_ERR_INVALID_ARGS);
    }
    let mut zeros: Vec<u8> = Vec::new();
    let mut i: usize = 0;
    while i < buffer_size
        invariant
            i <= buffer_size,
            zeros@ == Seq::new(i as nat, |k: int| 0u8),
        decreases buffer_size - i,
    {
        zeros.push(0);
        i = i + 1;
        proof {
            assert(zeros@ =~= Seq::new(i as nat, |k: int| 0u8));
        }
    }
    match mem.copy_to_user(buffer, zeros.as_slice()) {
        Ok(()) => ok_to_ret(0),
        Err(err) => err_to_ret(err),
    }
}

/// Write virtual CPU state: at most one state record, read from `buffer`.
pub fn sys_vcpu_write_state_impl(mem: &UserMemory, handle_val: u32, kind: u32, buffer: usize, buffer_size: usize) -> (r: SyscallRet)
    ensures
        r == if buffer_size > VCPU_STATE_SIZE || !mem.range_ok(buffer, buffer_size) {
            -RX_ERR_INVALID_ARGS as isize
        } else {
            0
        },
{
    if buffer_size > VCPU_STATE_SIZE {
        return err_to_ret(RX_ERR_INVALID_ARGS);
    }
    match mem.copy_from_user(buffer, buffer_size) {
        Ok(_) => ok_to_ret(0),
        Err(err) => err_to_ret(err),
    }
}

/// Hypervisor statistics.
#[derive(Clone, Copy, Debug)]
pub struct HypervisorStats {
    pub total_guests: usize,
    pub total_vcpus: usize,
}

/// Current hypervisor statistics: guests and CPUs are not counted.
pub fn get_stats() -> (st: HypervisorStats)
    ensures
        st.total_guests == 0,
        st.total_vcpus == 0,
{
    HypervisorStats { total_guests: 0, total_vcpus: 0 }
}

/// Bring up the hypervisor subsystem: nothing to set up.
pub fn init() {
}

} // verus!
