//! Assembly of the host-call arguments for each timestamp-update operation:
//! which timestamp fields to touch, whether to follow a symbolic link, and
//! the native encoding of each supplied timestamp.

use vstd::prelude::*;
use crate::time::{FileTime, to_native};

verus! {

/// Path-lookup flag: resolve a symbolic link to its target before acting.
/// Left out, the operation acts on the link entry itself. The flag values
/// here are the host ABI's own, so a prepared update can be handed to the
/// host primitive as it stands.
pub const LOOKUPFLAGS_SYMLINK_FOLLOW: u32 = 1;

/// Timestamp-field flag: update the last-access time.
pub const FSTFLAGS_ATIM: u16 = 1;

/// Timestamp-field flag: update the last-modification time.
pub const FSTFLAGS_MTIM: u16 = 4;

/// The arguments of one path-based timestamp update, ready to hand to the
/// host primitive together with the path itself.
#[derive(Clone, Copy, Debug, PartialEq, Eq, Structural)]
pub struct PathUpdate {
    /// Path-lookup flags: `LOOKUPFLAGS_SYMLINK_FOLLOW` or zero.
    pub lookupflags: u32,
    /// Native encoding of the access time to store.
    pub atime_native: u64,
    /// Native encoding of the modification time to store.
    pub mtime_native: u64,
    /// Which timestamp fields the host is to update.
    pub fstflags: u16,
}

/// The arguments of one handle-based timestamp update, ready to hand to the
/// host primitive together with the open file descriptor.
#[derive(Clone, Copy, Debug, PartialEq, Eq, Structural)]
pub struct HandleUpdate {
    /// Native encoding of the access time to store, or zero for "absent".
    pub atime_native: u64,
    /// Native encoding of the modification time to store, or zero for "absent".
    pub mtime_native: u64,
    /// Which timestamp fields the host is to update.
    pub fstflags: u16,
}

/// The field mask that selects the given combination of timestamp fields.
pub open spec fn fstflags_for(set_atime: bool, set_mtime: bool) -> u16 {
    ((if set_atime { FSTFLAGS_ATIM } else { 0 }) + (if set_mtime { FSTFLAGS_MTIM } else { 0 })) as u16
}

/// The native value a handle-based update stores for an optional timestamp:
/// the timestamp's own encoding, or zero when the field is absent.
pub open spec fn sentinel_native(t: Option<FileTime>) -> int {
    match t {
        Some(ft) => ft.native(),
        None => 0,
    }
}

/// The arguments a path-based update hands to the host, as a function of the
/// two timestamps and the chosen flags.
pub open spec fn path_update_spec(
    atime: FileTime,
    mtime: FileTime,
    lookupflags: u32,
    fstflags: u16,
) -> PathUpdate {
    PathUpdate {
        lookupflags,
        atime_native: atime.native() as u64,
        mtime_native: mtime.native() as u64,
        fstflags,
    }
}

/// The arguments a handle-based update hands to the host: each field's own
/// native encoding (zero when absent), and a mask that selects exactly the
/// fields whose encoding is non-zero.
pub open spec fn handle_update_spec(atime: Option<FileTime>, mtime: Option<FileTime>) -> HandleUpdate {
    HandleUpdate {
        atime_native: sentinel_native(atime) as u64,
        mtime_native: sentinel_native(mtime) as u64,
        fstflags: fstflags_for(sentinel_native(atime) != 0, sentinel_native(mtime) != 0),
    }
}

/// The host-call arguments of a path-based update: the chosen flags, and
/// each timestamp converted with its own seconds and its own sub-second
/// remainder.
pub fn set_times_args(atime: &FileTime, mtime: &FileTime, lookupflags: u32, fstflags: u16) -> (r: PathUpdate)
    requires
        atime.valid(),
        atime.representable(),
        mtime.valid(),
        mtime.representable(),
    ensures
        r == path_update_spec(*atime, *mtime, lookupflags, fstflags),
        r.atime_native == atime.native(),
        r.mtime_native == mtime.native(),
{
    PathUpdate {
        lookupflags,
        atime_native: to_native(atime),
        mtime_native: to_native(mtime),
        fstflags,
    }
}

/// Arguments to set both access and modification time of the entry a path
/// resolves to, following symbolic links.
pub fn set_file_times_args(atime: &FileTime, mtime: &FileTime) -> (r: PathUpdate)
    requires
        atime.valid(),
        atime.representable(),
        mtime.valid(),
        mtime.representable(),
    ensures
        r.lookupflags == LOOKUPFLAGS_SYMLINK_FOLLOW,
        r.fstflags == fstflags_for(true, true),
        r.atime_native == atime.native(),
        r.mtime_native == mtime.native(),
{
    set_times_args(atime, mtime, LOOKUPFLAGS_SYMLINK_FOLLOW, FSTFLAGS_ATIM + FSTFLAGS_MTIM)
}

/// Arguments to set both access and modification time of a symbolic-link
/// entry itself: the lookup does not follow the link.
pub fn set_symlink_file_times_args(atime: &FileTime, mtime: &FileTime) -> (r: PathUpdate)
    requires
        atime.valid(),
        atime.representable(),
        mtime.valid(),
        mtime.representable(),
    ensures
        r.lookupflags == 0,
        r.fstflags == fstflags_for(true, true),
        r.atime_native == atime.native(),
        r.mtime_native == mtime.native(),
{
    set_times_args(atime, mtime, 0, FSTFLAGS_ATIM + FSTFLAGS_MTIM)
}

/// Arguments to set the modification time alone, following symbolic links.
/// The access-time slot carries the zero timestamp, and the mask leaves the
/// access-time field unselected, so the host leaves it untouched.
pub fn set_file_mtime_args(mtime: &FileTime) -> (r: PathUpdate)
    requires
        mtime.valid(),
        mtime.representable(),
    ensures
        r.lookupflags == LOOKUPFLAGS_SYMLINK_FOLLOW,
        r.fstflags == fstflags_for(false, true),
        r.atime_native == 0,
        r.mtime_native == mtime.native(),
{
    let zero = FileTime::zero();
    set_times_args(&zero, mtime, LOOKUPFLAGS_SYMLINK_FOLLOW, FSTFLAGS_MTIM)
}

/// Arguments to set the access time alone, following symbolic links.
/// The modification-time slot carries the zero timestamp, and the mask
/// leaves the modification-time field unselected.
pub fn set_file_atime_args(atime: &FileTime) -> (r: PathUpdate)
    requires
        atime.valid(),
        atime.representable(),
    ensures
        r.lookupflags == LOOKUPFLAGS_SYMLINK_FOLLOW,
        r.fstflags == fstflags_for(true, false),
        r.atime_native == atime.native(),
        r.mtime_native == 0,
{
    let zero = FileTime::zero();
    set_times_args(atime, &zero, LOOKUPFLAGS_SYMLINK_FOLLOW, FSTFLAGS_ATIM)
}

/// The host-call arguments of a handle-based update. A field is selected in
/// the mask exactly when its native encoding is non-zero, so an absent
/// timestamp and the zero timestamp alike leave their field untouched.
pub fn set_file_handle_times_args(atime: Option<FileTime>, mtime: Option<FileTime>) -> (r: HandleUpdate)
    requires
        atime matches Some(a) ==> a.valid() && a.representable(),
        mtime matches Some(m) ==> m.valid() && m.representable(),
    ensures
        r == handle_update_spec(atime, mtime),
{
    let atime_native: u64 = match atime {
        Some(a) => to_native(&a),
        None => 0,
    };
    let mtime_native: u64 = match mtime {
        Some(m) => to_native(&m),
        None => 0,
    };
    let mut fstflags: u16 = 0;
    if atime_native != 0 {
        fstflags = fstflags + FSTFLAGS_ATIM;
    }
    if mtime_native != 0 {
        fstflags = fstflags + FSTFLAGS_MTIM;
    }
    HandleUpdate { atime_native, mtime_native, fstflags }
}

/// The zero timestamp is swallowed by the sentinel convention: a handle-based
/// update given the zero timestamp for the access time leaves the access-time
/// field unselected, whatever the modification-time argument is.
pub proof fn lemma_zero_sentinel_skips_atime(mtime: Option<FileTime>)
    ensures
        handle_update_spec(Some(FileTime { seconds: 0, nanos: 0 }), mtime).fstflags
            == fstflags_for(false, sentinel_native(mtime) != 0),
{
}

} // verus!
