//! Handle syscalls: closing, duplicating, replacing and transferring the
//! handles of the calling process.
use vstd::prelude::*;
use crate::status::{RX_ERR_ACCESS_DENIED, RX_ERR_BAD_HANDLE, RX_ERR_INVALID_ARGS, RX_ERR_NO_RESOURCES};
use crate::kobject::{Handle, HandleTable, RIGHTS_DUPLICATE, RIGHTS_TRANSFER, has_value};
use crate::usercopy::{UserMemory, le_bytes, le_value, decode_le};
use crate::{SyscallRet, err_to_ret, ok_to_ret};

verus! {

/// The handle value that names no handle.
pub const ZX_HANDLE_INVALID: u32 = 0;

/// Rights argument meaning "the rights of the source handle".
pub const ZX_RIGHT_SAME_RIGHTS: u32 = 0x80000000;

/// Most handles one close-many call takes.
pub const MAX_CLOSE_MANY: usize = 1024;

/// Close handle `handle_value`; closing the invalid handle does nothing.
pub fn sys_handle_close_impl(handles: &mut HandleTable, handle_value: u32) -> (r: SyscallRet)
    requires
        old(handles).wf(),
    ensures
        final(handles).wf(),
        handle_value == ZX_HANDLE_INVALID ==> r == 0 && *final(handles) == *old(handles),
        handle_value != ZX_HANDLE_INVALID ==> {
            &&& r == if old(handles).lookup(handle_value) is Some { 0 } else { -RX_ERR_BAD_HANDLE }
            &&& final(handles).lookup(handle_value) is None
            &&& forall|v: u32| v != handle_value ==> #[trigger] final(handles).lookup(v) == old(handles).lookup(v)
        },
{
    if handle_value == ZX_HANDLE_INVALID {
        return ok_to_ret(0);
    }
    match handles.remove(handle_value) {
        Some(_) => ok_to_ret(0),
        None => err_to_ret(RX_ERR_BAD_HANDLE),
    }
}

/// The `i`-th handle value of an array of little-endian 32-bit values.
pub open spec fn value_at(b: Seq<u8>, i: int) -> u32 {
    le_value(b.subrange(4 * i, 4 * i + 4), 4) as u32
}

/// Whether `v` is one of the first `n` values of array `b`.
pub open spec fn listed(b: Seq<u8>, n: int, v: u32) -> bool {
    exists|i: int| 0 <= i < n && value_at(b, i) == v
}

/// Close each of the `num_handles` handle values stored at `handles_ptr`
/// (32 bits each); the invalid handle and values naming no handle are
/// skipped.  At most 1024 values are accepted.
pub fn sys_handle_close_many_impl(handles: &mut HandleTable, mem: &UserMemory, handles_ptr: usize, num_handles: usize) -> (r: SyscallRet)
    requires
        old(handles).wf(),
    ensures
        final(handles).wf(),
        num_handles == 0 ==> r == 0 && *final(handles) == *old(handles),
        num_handles > MAX_CLOSE_MANY ==> r == -RX_ERR_INVALID_ARGS && *final(handles) == *old(handles),
        0 < num_handles <= MAX_CLOSE_MANY && !mem.range_ok(handles_ptr, (4 * num_handles) as usize) ==> r == -RX_ERR_INVALID_ARGS
            && *final(handles) == *old(handles),
        0 < num_handles <= MAX_CLOSE_MANY && mem.range_ok(handles_ptr, (4 * num_handles) as usize) ==> {
            let b = mem.bytes_at(handles_ptr, (4 * num_handles) as usize);
            &&& r == 0
            &&& forall|v: u32| #[trigger] final(handles).lookup(v) == if v != ZX_HANDLE_INVALID && listed(b, num_handles as int, v) {
                None
            } else {
                old(handles).lookup(v)
            }
        },
{
    if num_handles == 0 {
        return ok_to_ret(0);
    }
    if num_handles > MAX_CLOSE_MANY {
        return err_to_ret(RX_ERR_INVALID_ARGS);
    }
    let buf = match mem.copy_from_user(handles_ptr, 4 * num_handles) {
        Ok(b) => b,
        Err(err) => {
            return err_to_ret(err);
        },
    };
    let ghost b = buf@;
    let mut i: usize = 0;
    while i < num_handles
        invariant
            i <= num_handles,
            num_handles <= MAX_CLOSE_MANY,
            buf@ == b,
            b.len() == 4 * num_handles,
            handles.wf(),
            forall|v: u32| #[trigger] handles.lookup(v) == if v != ZX_HANDLE_INVALID && listed(b, i as int, v) {
                None
            } else {
                old(handles).lookup(v)
            },
        decreases num_handles - i,
    {
        let mut word: Vec<u8> = Vec::new();
        let mut k: usize = 0;
        while k < 4
            invariant
                k <= 4,
                i < num_handles,
                num_handles <= MAX_CLOSE_MANY,
                buf@ == b,
                b.len() == 4 * num_handles,
                word@ == b.subrange(4 * i, 4 * i + k),
            decreases 4 - k,
        {
            word.push(buf[4 * i + k]);
            k = k + 1;
            proof {
                assert(word@ =~= b.subrange(4 * i, 4 * i + k));
            }
        }
        let value = #[verifier::truncate] (decode_le(&word, 4) as u32);
        proof {
            assert(value == value_at(b, i as int));
        }
        let ghost before = *handles;
        if value != ZX_HANDLE_INVALID {
            let _ = handles.remove(value);
        }
        proof {
            assert forall|v: u32| #[trigger] handles.lookup(v) == if v != ZX_HANDLE_INVALID && listed(b, i + 1, v) {
                None
            } else {
                old(handles).lookup(v)
            } by {
                if v != ZX_HANDLE_INVALID && listed(b, i + 1, v) && !listed(b, i as int, v) {
                    let j = choose|j: int| 0 <= j < i + 1 && value_at(b, j) == v;
                    assert(j == i);
                }
                if listed(b, i as int, v) {
                    let j = choose|j: int| 0 <= j < i && value_at(b, j) == v;
                    assert(0 <= j < i + 1 && value_at(b, j) == v);
                }
                if v == value && v != ZX_HANDLE_INVALID {
                    assert(0 <= i < i + 1 && value_at(b, i as int) == v);
                }
            }
        }
        i = i + 1;
    }
    ok_to_ret(0)
}

/// Where value `v` resolves after a duplicate or replace of `hv` in `t`
/// added `nh` under `nv`: the new value resolves to the new handle, a
/// replaced source resolves to nothing, and everything else as before.
pub open spec fn dup_view(t: HandleTable, is_replace: bool, hv: u32, nv: u32, nh: Handle, v: u32) -> Option<Handle> {
    if v == nv {
        Some(nh)
    } else if is_replace && v == hv {
        None
    } else {
        t.lookup(v)
    }
}

/// Where value `v` resolves in `t` once `hv` is closed, when `closed`.
pub open spec fn closed_view(t: HandleTable, closed: bool, hv: u32, v: u32) -> Option<Handle> {
    if closed && v == hv {
        None
    } else {
        t.lookup(v)
    }
}

/// Duplicate (or, with `is_replace`, replace) handle `handle_value` by a
/// new handle to the same object with `rights` (or the source's rights when
/// `rights` is `ZX_RIGHT_SAME_RIGHTS`), and store the new handle value at
/// `handle_out`.  A duplicate needs the duplicate right; the rights asked
/// for must be a subset of the source's.  A replace closes the source even
/// when it then fails on the rights; a failed store closes the new handle.
fn handle_dup_replace_impl(handles: &mut HandleTable, mem: &mut UserMemory, is_replace: bool, handle_value: u32, rights: u32, handle_out: usize) -> (r: SyscallRet)
    requires
        old(handles).wf(),
    ensures
        final(handles).wf(),
        final(mem).base == old(mem).base,
        match old(handles).lookup(handle_value) {
            None => r == -RX_ERR_BAD_HANDLE && *final(handles) == *old(handles) && *final(mem) == *old(mem),
            Some(h) => if !is_replace && h.rights & RIGHTS_DUPLICATE != RIGHTS_DUPLICATE {
                r == -RX_ERR_ACCESS_DENIED && *final(handles) == *old(handles) && *final(mem) == *old(mem)
            } else if rights != ZX_RIGHT_SAME_RIGHTS && h.rights & rights != rights {
                &&& r == -RX_ERR_INVALID_ARGS
                &&& *final(mem) == *old(mem)
                &&& forall|v: u32| #[trigger] final(handles).lookup(v) == closed_view(*old(handles), is_replace, handle_value, v)
            } else {
                let nr = if rights == ZX_RIGHT_SAME_RIGHTS { h.rights } else { rights };
                let nh = Handle { obj_type: h.obj_type, id: h.id, rights: nr };
                let nv = old(handles).next_value;
                if nv == 0 || nv == u32::MAX || closed_view(*old(handles), is_replace, handle_value, nv) is Some {
                    &&& r == -RX_ERR_NO_RESOURCES
                    &&& *final(mem) == *old(mem)
                    &&& forall|v: u32| #[trigger] final(handles).lookup(v) == closed_view(*old(handles), is_replace, handle_value, v)
                } else if !old(mem).range_ok(handle_out, 4) {
                    &&& r == -RX_ERR_INVALID_ARGS
                    &&& *final(mem) == *old(mem)
                    &&& forall|v: u32| #[trigger] final(handles).lookup(v) == closed_view(*old(handles), is_replace, handle_value, v)
                } else {
                    &&& r == 0
                    &&& final(mem).bytes@ == old(mem).written(handle_out, le_bytes(nv as u64, 4))
                    &&& forall|v: u32| #[trigger] final(handles).lookup(v) == dup_view(*old(handles), is_replace, handle_value, nv, nh, v)
                }
            },
        },
{
    let source = match handles.get(handle_value) {
        Some(h) => h,
        None => {
            return err_to_ret(RX_ERR_BAD_HANDLE);
        },
    };
    if !is_replace {
        if !source.has_right(RIGHTS_DUPLICATE) {
            return err_to_ret(RX_ERR_ACCESS_DENIED);
        }
    }
    let new_rights = if rights == ZX_RIGHT_SAME_RIGHTS {
        source.rights
    } else {
        if (source.rights & rights) != rights {
            if is_replace {
                let _ = handles.remove(handle_value);
            }
            return err_to_ret(RX_ERR_INVALID_ARGS);
        }
        rights
    };
    if is_replace {
        let _ = handles.remove(handle_value);
    }
    let ghost t1 = *handles;
    proof {
        assert(t1.next_value == old(handles).next_value);
        assert(t1.lookup(t1.next_value) == closed_view(*old(handles), is_replace, handle_value, t1.next_value));
        assert(has_value(t1.entries@, t1.next_value) == (closed_view(*old(handles), is_replace, handle_value, t1.next_value) is Some));
    }
    let new_handle = Handle::new(source.obj_type, source.id, new_rights);
    let new_handle_value = match handles.add(new_handle) {
        Ok(v) => v,
        Err(err) => {
            return err_to_ret(err);
        },
    };
    match mem.write_le(handle_out, new_handle_value as u64, 4) {
        Ok(()) => {},
        Err(err) => {
            let _ = handles.remove(new_handle_value);
            return err_to_ret(err);
        },
    }
    ok_to_ret(0)
}

/// Outcome of duplicating a handle: `r` is the result and a name ending in `_after` is that state after the call.
pub open spec fn handle_duplicate_outcome(
    handles: HandleTable,
    handles_after: HandleTable,
    mem: UserMemory,
    mem_after: UserMemory,
    handle_value: u32,
    rights: u32,
    handle_out: usize,
    r: SyscallRet,
) -> bool {
    &&& mem_after.base == mem.base
    &&& match handles.lookup(handle_value) {
        None => r == -RX_ERR_BAD_HANDLE && handles_after == handles && mem_after == mem,
        Some(h) => if h.rights & RIGHTS_DUPLICATE != RIGHTS_DUPLICATE {
            r == -RX_ERR_ACCESS_DENIED && handles_after == handles && mem_after == mem
        } else if rights != ZX_RIGHT_SAME_RIGHTS && h.rights & rights != rights {
            r == -RX_ERR_INVALID_ARGS && mem_after == mem
                && forall|v: u32| #[trigger] handles_after.lookup(v) == handles.lookup(v)
        } else {
            let nh = Handle { obj_type: h.obj_type, id: h.id, rights: if rights == ZX_RIGHT_SAME_RIGHTS { h.rights } else { rights } };
            let nv = handles.next_value;
            if nv == 0 || nv == u32::MAX || handles.lookup(nv) is Some || !mem.range_ok(handle_out, 4) {
                &&& r == -(if nv == 0 || nv == u32::MAX || handles.lookup(nv) is Some { RX_ERR_NO_RESOURCES } else { RX_ERR_INVALID_ARGS })
                &&& mem_after == mem
                &&& forall|v: u32| #[trigger] handles_after.lookup(v) == handles.lookup(v)
            } else {
                &&& r == 0
                &&& mem_after.bytes@ == mem.written(handle_out, le_bytes(nv as u64, 4))
                &&& forall|v: u32| #[trigger] handles_after.lookup(v) == dup_view(handles, false, handle_value, nv, nh, v)
            }
        },
    }
}

/// Duplicate handle `handle_value` with `rights`, storing the new handle
/// value at `handle_out`.
pub fn sys_handle_duplicate_impl(handles: &mut HandleTable, mem: &mut UserMemory, handle_value: u32, rights: u32, handle_out: usize) -> (r: SyscallRet)
    requires
        old(handles).wf(),
    ensures
        final(handles).wf(),
        handle_duplicate_outcome(*old(handles), *final(handles), *old(mem), *final(mem), handle_value,
            rights, handle_out, r),
{
    handle_dup_replace_impl(handles, mem, false, handle_value, rights, handle_out)
}

/// Replace handle `handle_value` by a new handle with `rights`, storing the
/// new handle value at `handle_out`; the source is closed whatever happens
/// after it is found.
pub fn sys_handle_replace_impl(handles: &mut HandleTable, mem: &mut UserMemory, handle_value: u32, rights: u32, handle_out: usize) -> (r: SyscallRet)
    requires
        old(handles).wf(),
    ensures
        final(handles).wf(),
        final(mem).base == old(mem).base,
        match old(handles).lookup(handle_value) {
            None => r == -RX_ERR_BAD_HANDLE && *final(handles) == *old(handles) && *final(mem) == *old(mem),
            Some(h) => if rights != ZX_RIGHT_SAME_RIGHTS && h.rights & rights != rights {
                r == -RX_ERR_INVALID_ARGS && *final(mem) == *old(mem)
                    && forall|v: u32| #[trigger] final(handles).lookup(v) == closed_view(*old(handles), true, handle_value, v)
            } else {
                let nh = Handle { obj_type: h.obj_type, id: h.id, rights: if rights == ZX_RIGHT_SAME_RIGHTS { h.rights } else { rights } };
                let nv = old(handles).next_value;
                let taken = closed_view(*old(handles), true, handle_value, nv) is Some;
                if nv == 0 || nv == u32::MAX || taken || !old(mem).range_ok(handle_out, 4) {
                    &&& r == -(if nv == 0 || nv == u32::MAX || taken { RX_ERR_NO_RESOURCES } else { RX_ERR_INVALID_ARGS })
                    &&& *final(mem) == *old(mem)
                    &&& forall|v: u32| #[trigger] final(handles).lookup(v) == closed_view(*old(handles), true, handle_value, v)
                } else {
                    &&& r == 0
                    &&& final(mem).bytes@ == old(mem).written(handle_out, le_bytes(nv as u64, 4))
                    &&& forall|v: u32| #[trigger] final(handles).lookup(v) == dup_view(*old(handles), true, handle_value, nv, nh, v)
                }
            },
        },
{
    handle_dup_replace_impl(handles, mem, true, handle_value, rights, handle_out)
}

/// Outcome of transferring a handle: `r` is the result and a name ending in `_after` is that state after the call.
pub open spec fn handle_transfer_outcome(
    handles: HandleTable,
    handles_after: HandleTable,
    handle_value: u32,
    new_rights: u32,
    options: u32,
    r: SyscallRet,
) -> bool {
    &&& options != 0 || handle_value == ZX_HANDLE_INVALID ==> r == -RX_ERR_INVALID_ARGS && handles_after == handles
    &&& options == 0 && handle_value != ZX_HANDLE_INVALID ==> match handles.lookup(handle_value) {
        None => r == -RX_ERR_BAD_HANDLE && handles_after == handles,
        Some(h) => if h.rights & RIGHTS_TRANSFER != RIGHTS_TRANSFER {
            r == -RX_ERR_ACCESS_DENIED && handles_after == handles
        } else if new_rights != ZX_RIGHT_SAME_RIGHTS && h.rights & new_rights != new_rights {
            r == -RX_ERR_INVALID_ARGS && handles_after == handles
        } else {
            &&& r == 0
            &&& forall|v: u32| #[trigger] handles_after.lookup(v) == closed_view(handles, true, handle_value, v)
        },
    }
}

/// Give up handle `handle_value`, which needs the transfer right, for a
/// transfer with `new_rights` (a subset of its rights, or
/// `ZX_RIGHT_SAME_RIGHTS`); options must be 0.
pub fn sys_handle_transfer_impl(handles: &mut HandleTable, handle_value: u32, new_rights: u32, options: u32) -> (r: SyscallRet)
    requires
        old(handles).wf(),
    ensures
        final(handles).wf(),
        handle_transfer_outcome(*old(handles), *final(handles), handle_value, new_rights, options, r),
{
    if options != 0 {
        return err_to_ret(RX_ERR_INVALID_ARGS);
    }
    if handle_value == ZX_HANDLE_INVALID {
        return err_to_ret(RX_ERR_INVALID_ARGS);
    }
    let source = match handles.get(handle_value) {
        Some(h) => h,
        None => {
            return err_to_ret(RX_ERR_BAD_HANDLE);
        },
    };
    if !source.has_right(RIGHTS_TRANSFER) {
        return err_to_ret(RX_ERR_ACCESS_DENIED);
    }
    if new_rights != ZX_RIGHT_SAME_RIGHTS {
        if (source.rights & new_rights) != new_rights {
            return err_to_ret(RX_ERR_INVALID_ARGS);
        }
    }
    let _ = handles.remove(handle_value);
    ok_to_ret(0)
}

/// Handle operation statistics.
#[derive(Clone, Copy, Debug)]
pub struct HandleOpsStats {
    pub total_close: u64,
    pub total_dup: u64,
    pub total_replace: u64,
}

/// Current handle operation statistics (none are tracked).
pub fn get_stats() -> (st: HandleOpsStats)
    ensures
        st.total_close == 0,
        st.total_dup == 0,
        st.total_replace == 0,
{
    HandleOpsStats { total_close: 0, total_dup: 0, total_replace: 0 }
}

/// Initialize the handle syscall subsystem (nothing to set up).
pub fn init() {
}

} // verus!
