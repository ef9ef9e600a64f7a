//! Pagers: user-space providers of VMO contents.
use vstd::prelude::*;
use crate::status::RX_ERR_INVALID_ARGS;
use crate::{SyscallRet, err_to_ret, ok_to_ret};

verus! {

/// Most pagers the kernel is sized for.
pub const MAX_PAGERS: usize = 1024;

/// Create a pager (options must be 0); it takes id `*next_id`, which then
/// advances, and the result is that id.
pub fn sys_pager_create_impl(next_id: &mut u64, options: u32) -> (r: SyscallRet)
    ensures
        options != 0 ==> r == -RX_ERR_INVALID_ARGS && *final(next_id) == *old(next_id),
        options == 0 ==> r == (#[verifier::truncate] (*old(next_id) as usize)) as isize && *final(next_id) == old(next_id).wrapping_add(1),
{
    if options != 0 {
        return err_to_ret(RX_ERR_INVALID_ARGS);
    }
    let pager_id = *next_id;
    *next_id = pager_id.wrapping_add(1);
    ok_to_ret(#[verifier::truncate] (pager_id as usize))
}

/// Create a VMO backed by pager `pager_handle`, reporting page requests on
/// port `port_handle` with `key` (options must be 0); the result is the new
/// VMO's id, which is the key.
pub fn sys_pager_create_vmo_impl(pager_handle: u32, port_handle: u32, key: u64, size: u64, options: u32) -> (r: SyscallRet)
    ensures
        options != 0 ==> r == -RX_ERR_INVALID_ARGS,
        options == 0 ==> r == (#[verifier::truncate] (key as usize)) as isize,
{
    if options != 0 {
        return err_to_ret(RX_ERR_INVALID_ARGS);
    }
    ok_to_ret(#[verifier::truncate] (key as usize))
}

/// Pager statistics.
#[derive(Clone, Copy, Debug)]
pub struct PagerStats {
    pub total_pagers: usize,
    pub total_paged_vmos: u64,
    pub total_page_faults: u64,
}

/// Current pager statistics (none are tracked).
pub fn get_stats() -> (st: PagerStats)
    ensures
        st.total_pagers == 0,
        st.total_paged_vmos == 0,
        st.total_page_faults == 0,
{
    PagerStats { total_pagers: 0, total_paged_vmos: 0, total_page_faults: 0 }
}

/// Initialize the pager syscall subsystem (nothing to set up).
pub fn init() {
}

} // verus!
