//! Scheduling profiles and the syscalls that create and apply them.
use vstd::prelude::*;
use crate::status::{Status, RX_ERR_INVALID_ARGS, RX_ERR_NO_RESOURCES};
use crate::kobject::{Handle, HandleTable, ObjectType, RIGHTS_APPLY_PROFILE};
use crate::usercopy::{UserMemory, le_bytes, le_field, field_at};
use crate::{SyscallRet, err_to_ret, ok_to_ret};

pub mod profile_flags;

verus! {

/// Longest profile name, in bytes.
pub const MAX_PROFILE_NAME_LEN: usize = 64;

/// Most profiles the kernel is sized for.
pub const MAX_PROFILES: usize = 128;

/// Every valid profile flag.
pub const PROFILE_FLAGS_MASK: u32 = 0x07;

/// What a profile asks of the scheduler.
#[derive(Clone, Copy, Debug)]
pub struct ProfileInfo {
    pub flags: u32,
    pub cpu_affinity: u64,
    pub priority: u32,
    pub reserved: [u32; 8],
}

impl Default for ProfileInfo {
    /// No flags, no affinity, priority 0.
    fn default() -> (p: ProfileInfo)
        ensures
            p.flags == 0,
            p.cpu_affinity == 0,
            p.priority == 0,
            forall|i: int| 0 <= i < 8 ==> p.reserved@[i] == 0,
    {
        ProfileInfo { flags: 0, cpu_affinity: 0, priority: 0, reserved: [0; 8] }
    }
}

/// Size of a `ProfileInfo` record in user memory.
pub const PROFILE_INFO_SIZE: usize = 56;

impl ProfileInfo {
    /// Whether this record is the one laid out little-endian in `b`: flags
    /// (4 bytes) and 4 bytes of padding, the CPU affinity mask (8), the
    /// priority (4), then eight reserved words (4 each).
    pub open spec fn decoded_from(&self, b: Seq<u8>) -> bool {
        &&& self.flags == le_field(b, 0, 4) as u32
        &&& self.cpu_affinity == le_field(b, 8, 8)
        &&& self.priority == le_field(b, 16, 4) as u32
        &&& forall|i: int| 0 <= i < 8 ==> #[trigger] self.reserved@[i] == le_field(b, 20 + 4 * i, 4) as u32
    }
}

/// The profile record laid out in the `PROFILE_INFO_SIZE` bytes `b`.
pub fn decode_profile_info(b: &Vec<u8>) -> (p: ProfileInfo)
    requires
        b@.len() == PROFILE_INFO_SIZE,
    ensures
        p.decoded_from(b@),
{
    let r0 = field_at(b, 20, 4) as u32;
    let r1 = field_at(b, 24, 4) as u32;
    let r2 = field_at(b, 28, 4) as u32;
    let r3 = field_at(b, 32, 4) as u32;
    let r4 = field_at(b, 36, 4) as u32;
    let r5 = field_at(b, 40, 4) as u32;
    let r6 = field_at(b, 44, 4) as u32;
    let r7 = field_at(b, 48, 4) as u32;
    ProfileInfo {
        flags: field_at(b, 0, 4) as u32,
        cpu_affinity: field_at(b, 8, 8),
        priority: field_at(b, 16, 4) as u32,
        reserved: [r0, r1, r2, r3, r4, r5, r6, r7],
    }
}

/// A scheduling profile with id `id`, held by `refcount` references.
pub struct Profile {
    pub refcount: u32,
    pub id: u64,
    pub info: ProfileInfo,
}

impl Profile {
    /// A profile with id `id` and one reference.
    pub fn new(id: u64, info: ProfileInfo) -> (p: Profile)
        ensures
            p.id == id,
            p.info == info,
            p.refcount == 1,
    {
        Profile { refcount: 1, id, info }
    }

    pub fn id(&self) -> (i: u64)
        ensures
            i == self.id,
    {
        self.id
    }

    pub fn info(&self) -> (i: ProfileInfo)
        ensures
            i == self.info,
    {
        self.info
    }

    /// Take a reference; the count wraps.
    pub fn inc_ref(&mut self)
        ensures
            final(self).refcount == old(self).refcount.wrapping_add(1),
            final(self).id == old(self).id,
            final(self).info == old(self).info,
    {
        self.refcount = self.refcount.wrapping_add(1);
    }

    /// Drop a reference; a profile with none left stays at zero.
    pub fn dec_ref(&mut self)
        ensures
            final(self).refcount == dropped_ref(old(self).refcount),
            final(self).id == old(self).id,
            final(self).info == old(self).info,
    {
        if self.refcount > 0 {
            self.refcount = self.refcount - 1;
        }
    }
}

/// Create a profile from user memory at `profile_info_user` and store a
/// handle to it (with the apply-profile right) as 4 bytes at `profile_out`.
/// The whole record (`PROFILE_INFO_SIZE` bytes, see
/// `ProfileInfo::decoded_from`) is read; unknown flags are refused; a
/// failed store closes the handle again.  The profile takes id `*next_id`,
/// which then advances; on success the profile, holding the record's
/// fields, is kept in `profiles`: it is the object the new handle names.
pub fn sys_profile_create_impl(
    next_id: &mut u64,
    profiles: &mut Vec<Profile>,
    handles: &mut HandleTable,
    mem: &mut UserMemory,
    root_job_handle: u32,
    profile_info_user: usize,
    profile_out: usize,
) -> (r: SyscallRet)
    requires
        old(handles).wf(),
    ensures
        final(handles).wf(),
        final(mem).base == old(mem).base,
        ({
            let unchanged = *final(next_id) == *old(next_id) && *final(handles) == *old(handles) && *final(mem) == *old(mem)
                && final(profiles)@ == old(profiles)@;
            if !old(mem).range_ok(profile_info_user, PROFILE_INFO_SIZE) {
                r == -RX_ERR_INVALID_ARGS && unchanged
            } else {
                let flags = le_field(old(mem).bytes_at(profile_info_user, PROFILE_INFO_SIZE), 0, 4) as u32;
                let v = old(handles).next_value;
                let h = Handle { obj_type: ObjectType::Profile, id: *old(next_id), rights: RIGHTS_APPLY_PROFILE };
                if flags & !PROFILE_FLAGS_MASK != 0 {
                    r == -RX_ERR_INVALID_ARGS && unchanged
                } else if v == 0 || v == u32::MAX || old(handles).lookup(v) is Some {
                    r == -RX_ERR_NO_RESOURCES && *final(next_id) == old(next_id).wrapping_add(1)
                        && *final(handles) == *old(handles) && *final(mem) == *old(mem) && final(profiles)@ == old(profiles)@
                } else if !old(mem).range_ok(profile_out, 4) {
                    &&& r == -RX_ERR_INVALID_ARGS
                    &&& *final(next_id) == old(next_id).wrapping_add(1)
                    &&& *final(mem) == *old(mem)
                    &&& final(profiles)@ == old(profiles)@
                    &&& forall|w: u32| #[trigger] final(handles).lookup(w) == old(handles).lookup(w)
                } else {
                    &&& r == 0
                    &&& final(profiles)@.len() == old(profiles)@.len() + 1
                    &&& final(profiles)@.drop_last() == old(profiles)@
                    &&& final(profiles)@.last().id == *old(next_id)
                    &&& final(profiles)@.last().refcount == 1
                    &&& final(profiles)@.last().info.decoded_from(old(mem).bytes_at(profile_info_user, PROFILE_INFO_SIZE))
                    &&& *final(next_id) == old(next_id).wrapping_add(1)
                    &&& final(mem).bytes@ == old(mem).written(profile_out, le_bytes(v as u64, 4))
                    &&& final(handles).lookup(v) == Some(h)
                    &&& forall|w: u32| w != v ==> #[trigger] final(handles).lookup(w) == old(handles).lookup(w)
                }
            }
        }),
{
    let raw = match mem.copy_from_user(profile_info_user, PROFILE_INFO_SIZE) {
        Ok(b) => b,
        Err(err) => {
            return err_to_ret(err);
        },
    };
    let profile_info = decode_profile_info(&raw);
    if profile_info.flags & !PROFILE_FLAGS_MASK != 0 {
        return err_to_ret(RX_ERR_INVALID_ARGS);
    }
    let id = *next_id;
    *next_id = id.wrapping_add(1);
    let profile = Profile::new(id, profile_info);
    let handle = Handle::new(ObjectType::Profile, profile.id(), RIGHTS_APPLY_PROFILE);
    let handle_value = match handles.add(handle) {
        Ok(v) => v,
        Err(err) => {
            return err_to_ret(err);
        },
    };
    match mem.write_le(profile_out, handle_value as u64, 4) {
        Ok(()) => {
            profiles.push(profile);
            proof {
                assert(profiles@.drop_last() =~= old(profiles)@);
            }
            ok_to_ret(0)
        },
        Err(err) => {
            let _ = handles.remove(handle_value);
            err_to_ret(err)
        },
    }
}

/// Apply profile `profile_handle` to object `handle`: options must be 0;
/// nothing more is done here.
pub fn sys_object_set_profile_impl(handle: u32, profile_handle: u32, options: u32) -> (r: SyscallRet)
    ensures
        r == if options != 0 { -RX_ERR_INVALID_ARGS as isize } else { 0 },
{
    if options != 0 {
        return err_to_ret(RX_ERR_INVALID_ARGS);
    }
    ok_to_ret(0)
}

/// Profile statistics.
#[derive(Clone, Copy, Debug)]
pub struct ProfileStats {
    pub total_profiles: usize,
    pub total_applied: u64,
}

/// Current profile statistics (none are tracked).
pub fn get_stats() -> (st: ProfileStats)
    ensures
        st.total_profiles == 0,
        st.total_applied == 0,
{
    ProfileStats { total_profiles: 0, total_applied: 0 }
}

/// Initialize the profile syscall subsystem (nothing to set up).
pub fn init() {
}

/// The count a reference drop leaves: one less, but never below zero.
pub open spec fn dropped_ref(count: u32) -> u32 {
    if count > 0 { (count - 1) as u32 } else { 0 }
}

/// Taking a reference and dropping it again leaves the count as it was,
/// unless taking it wrapped the count around.
pub proof fn lemma_take_then_drop_ref(count: u32)
    requires
        count < u32::MAX,
    ensures
        dropped_ref(count.wrapping_add(1)) == count,
{
}

} // verus!
