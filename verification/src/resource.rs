//! Resources: capabilities over kernel-managed ranges, created from the
//! root resource.
use vstd::prelude::*;
use crate::status::{RX_ERR_ACCESS_DENIED, RX_ERR_INVALID_ARGS};
use crate::usercopy::UserMemory;
use crate::{SyscallRet, err_to_ret, ok_to_ret};

pub mod resource_kind;
pub mod resource_options;

verus! {

/// Length of a resource name, terminator included.
pub const MAX_NAME_LEN: usize = 32;

/// Most resources the kernel is sized for.
pub const MAX_RESOURCES: usize = 256;

/// Create a resource of the kind and flags in `options` from the root
/// resource (handle 0): the kind must be known; a name of up to
/// `MAX_NAME_LEN - 1` bytes is read from user memory when one is given.
/// The resource takes id `*next_id`, which then advances, and the result is
/// that id.
pub fn sys_resource_create_impl(next_id: &mut u64, mem: &UserMemory, parent_handle: u32, options: u32, base: u64, size: usize, name: usize, name_size: usize) -> (r: SyscallRet)
    ensures
        ({
            let copy_size = if name_size < MAX_NAME_LEN - 1 { name_size } else { (MAX_NAME_LEN - 1) as usize };
            if parent_handle != 0 {
                r == -RX_ERR_ACCESS_DENIED && *final(next_id) == *old(next_id)
            } else if options & resource_options::EXTRACT_KIND_MASK >= resource_kind::COUNT {
                r == -RX_ERR_INVALID_ARGS && *final(next_id) == *old(next_id)
            } else if name_size > 0 && name != 0 && !mem.range_ok(name, copy_size) {
                r == -RX_ERR_INVALID_ARGS && *final(next_id) == *old(next_id)
            } else {
                r == (#[verifier::truncate] (*old(next_id) as usize)) as isize && *final(next_id) == old(next_id).wrapping_add(1)
            }
        }),
{
    if parent_handle != 0 {
        return err_to_ret(RX_ERR_ACCESS_DENIED);
    }
    let kind = resource_options::extract_kind(options);
    if kind >= resource_kind::COUNT {
        return err_to_ret(RX_ERR_INVALID_ARGS);
    }
    let flags = resource_options::extract_flags(options);
    assert(flags & resource_options::FLAGS_MASK == flags) by (bit_vector)
        requires
            flags == options & 0xFFFFFF00u32,
            resource_options::FLAGS_MASK == 0xFFFFFF00u32,
    ;
    if flags & resource_options::FLAGS_MASK != flags {
        return err_to_ret(RX_ERR_INVALID_ARGS);
    }
    if name_size > 0 && name != 0 {
        let copy_size = if name_size < MAX_NAME_LEN - 1 { name_size } else { MAX_NAME_LEN - 1 };
        match mem.copy_from_user(name, copy_size) {
            Ok(_name) => {},
            Err(err) => {
                return err_to_ret(err);
            },
        }
    }
    let resource_id = *next_id;
    *next_id = resource_id.wrapping_add(1);
    ok_to_ret(#[verifier::truncate] (resource_id as usize))
}

/// Resource statistics.
#[derive(Clone, Copy, Debug)]
pub struct ResourceStats {
    pub total_resources: usize,
    pub total_root: usize,
}

/// Current resource statistics (none are tracked).
pub fn get_stats() -> (st: ResourceStats)
    ensures
        st.total_resources == 0,
        st.total_root == 0,
{
    ResourceStats { total_resources: 0, total_root: 0 }
}

/// Initialize the resource syscall subsystem (nothing to set up).
pub fn init() {
}

} // verus!
