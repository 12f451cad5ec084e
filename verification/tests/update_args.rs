use filetime::time::FileTime;
use filetime::update::{
    set_file_atime_args, set_file_handle_times_args, set_file_mtime_args,
    set_file_times_args, set_symlink_file_times_args, set_times_args, FSTFLAGS_ATIM,
    FSTFLAGS_MTIM, LOOKUPFLAGS_SYMLINK_FOLLOW,
};

fn sample_atime() -> FileTime {
    FileTime { seconds: 1_000, nanos: 111 }
}

fn sample_mtime() -> FileTime {
    FileTime { seconds: 2_000, nanos: 222 }
}

#[test]
fn both_fields_follow_symlinks() {
    let r = set_file_times_args(&sample_atime(), &sample_mtime());
    assert_eq!(r.lookupflags, LOOKUPFLAGS_SYMLINK_FOLLOW);
    assert_eq!(r.fstflags, FSTFLAGS_ATIM | FSTFLAGS_MTIM);
    assert_eq!(r.atime_native, 1_000_000_000_111);
    assert_eq!(r.mtime_native, 2_000_000_000_222);
}

#[test]
fn symlink_variant_does_not_follow() {
    let r = set_symlink_file_times_args(&sample_atime(), &sample_mtime());
    assert_eq!(r.lookupflags, 0);
    assert_eq!(r.fstflags, FSTFLAGS_ATIM | FSTFLAGS_MTIM);
    assert_eq!(r.atime_native, 1_000_000_000_111);
    assert_eq!(r.mtime_native, 2_000_000_000_222);
}

#[test]
fn mtime_only_leaves_access_time_unselected() {
    let r = set_file_mtime_args(&sample_mtime());
    assert_eq!(r.lookupflags, LOOKUPFLAGS_SYMLINK_FOLLOW);
    assert_eq!(r.fstflags, FSTFLAGS_MTIM);
    assert_eq!(r.fstflags & FSTFLAGS_ATIM, 0);
    assert_eq!(r.atime_native, 0);
    assert_eq!(r.mtime_native, 2_000_000_000_222);
}

#[test]
fn atime_only_leaves_modification_time_unselected() {
    let r = set_file_atime_args(&sample_atime());
    assert_eq!(r.lookupflags, LOOKUPFLAGS_SYMLINK_FOLLOW);
    assert_eq!(r.fstflags, FSTFLAGS_ATIM);
    assert_eq!(r.fstflags & FSTFLAGS_MTIM, 0);
    assert_eq!(r.atime_native, 1_000_000_000_111);
    assert_eq!(r.mtime_native, 0);
}

#[test]
fn each_timestamp_keeps_its_own_remainder() {
    // The modification time's native value must be built from the
    // modification timestamp's own nanoseconds, not the access time's.
    let atime = FileTime { seconds: 10, nanos: 1 };
    let mtime = FileTime { seconds: 20, nanos: 2 };
    let r = set_times_args(&atime, &mtime, LOOKUPFLAGS_SYMLINK_FOLLOW, FSTFLAGS_ATIM | FSTFLAGS_MTIM);
    assert_eq!(r.atime_native, 10_000_000_001);
    assert_eq!(r.mtime_native, 20_000_000_002);
}

#[test]
fn repeated_assembly_is_identical() {
    let first = set_file_times_args(&sample_atime(), &sample_mtime());
    let second = set_file_times_args(&sample_atime(), &sample_mtime());
    assert_eq!(first, second);
}

#[test]
fn handle_update_selects_present_fields() {
    let r = set_file_handle_times_args(Some(sample_atime()), Some(sample_mtime()));
    assert_eq!(r.fstflags, FSTFLAGS_ATIM | FSTFLAGS_MTIM);
    assert_eq!(r.atime_native, 1_000_000_000_111);
    assert_eq!(r.mtime_native, 2_000_000_000_222);

    let only_atime = set_file_handle_times_args(Some(sample_atime()), None);
    assert_eq!(only_atime.fstflags, FSTFLAGS_ATIM);
    assert_eq!(only_atime.mtime_native, 0);

    let only_mtime = set_file_handle_times_args(None, Some(sample_mtime()));
    assert_eq!(only_mtime.fstflags, FSTFLAGS_MTIM);
    assert_eq!(only_mtime.atime_native, 0);

    let neither = set_file_handle_times_args(None, None);
    assert_eq!(neither.fstflags, 0);
    assert_eq!(neither.atime_native, 0);
    assert_eq!(neither.mtime_native, 0);
}

#[test]
fn zero_timestamp_is_skipped_like_an_absent_field() {
    let zero = FileTime { seconds: 0, nanos: 0 };
    let r = set_file_handle_times_args(Some(zero), Some(sample_mtime()));
    // The zero access time is conflated with "absent": its field stays
    // unselected, so the host leaves the access time unchanged.
    assert_eq!(r.fstflags & FSTFLAGS_ATIM, 0);
    assert_eq!(r.fstflags, FSTFLAGS_MTIM);
    assert_eq!(r.atime_native, 0);
    assert_eq!(r.mtime_native, 2_000_000_000_222);
}
