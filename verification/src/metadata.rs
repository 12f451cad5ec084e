//! Reading portable timestamps out of a filesystem metadata snapshot.
//!
//! The host's metadata query reports each timestamp, where it can, as a
//! duration since the UNIX epoch. A snapshot of those reports is modelled by
//! [`Metadata`]; the accessors turn each report into a [`FileTime`] or say
//! why they cannot.

use vstd::prelude::*;
use crate::time::{FileTime, NANOS_PER_SECOND};

verus! {

/// A host-reported duration since the UNIX epoch: whole seconds and a
/// sub-second remainder in nanoseconds. Well-formed when the remainder is
/// below one second, as the host's duration type guarantees.
#[derive(Clone, Copy, Debug, PartialEq, Eq, Structural)]
pub struct EpochDuration {
    /// Whole seconds since the epoch.
    pub seconds: u64,
    /// Sub-second remainder, in nanoseconds.
    pub nanos: u32,
}

impl EpochDuration {
    /// Well-formedness: the sub-second part is a genuine remainder.
    pub open spec fn valid(self) -> bool {
        self.nanos < NANOS_PER_SECOND
    }

    /// Whether the whole-second count fits the portable signed field.
    pub open spec fn fits(self) -> bool {
        self.seconds <= i64::MAX
    }
}

/// The timestamps of one filesystem entry as the host reported them: each
/// field holds the duration since the epoch, or nothing where the host could
/// not express the timestamp that way (the field is unsupported, or the
/// instant lies before the epoch).
#[derive(Clone, Copy, Debug, PartialEq, Eq, Structural)]
pub struct Metadata {
    /// When the entry's contents were last written.
    pub modified: Option<EpochDuration>,
    /// When the entry's contents were last read.
    pub accessed: Option<EpochDuration>,
    /// When the entry was created, on filesystems that track it.
    pub created: Option<EpochDuration>,
}

impl Metadata {
    /// Well-formedness: every reported duration is well-formed.
    pub open spec fn well_formed(self) -> bool {
        &&& (self.modified matches Some(d) ==> d.valid())
        &&& (self.accessed matches Some(d) ==> d.valid())
        &&& (self.created matches Some(d) ==> d.valid())
    }
}

/// Why a timestamp could not be produced.
#[derive(Clone, Copy, Debug, PartialEq, Eq, Structural)]
pub enum TimeError {
    /// The host could not report the timestamp as a duration since the
    /// epoch, or the reported duration does not fit the portable form.
    Clock,
    /// A path could not be represented in the host's string encoding.
    InvalidPath,
}

/// The portable timestamp denoted by a host-reported duration.
pub open spec fn filetime_of(d: EpochDuration) -> FileTime {
    FileTime { seconds: d.seconds as i64, nanos: d.nanos }
}

/// The portable timestamp of a host-reported duration, or `TimeError::Clock`
/// where the whole-second count overflows the portable signed field.
pub fn duration_to_filetime(d: &EpochDuration) -> (r: Result<FileTime, TimeError>)
    requires
        d.valid(),
    ensures
        d.fits() ==> r == Ok::<FileTime, TimeError>(filetime_of(*d)),
        !d.fits() ==> r == Err::<FileTime, TimeError>(TimeError::Clock),
        r matches Ok(t) ==> t.valid() && 0 <= t.seconds,
{
    if d.seconds <= i64::MAX as u64 {
        Ok(FileTime { seconds: d.seconds as i64, nanos: d.nanos })
    } else {
        Err(TimeError::Clock)
    }
}

/// The last-modification time of the entry, or `TimeError::Clock` where the
/// host reported none (never a silent default).
pub fn from_last_modification_time(meta: &Metadata) -> (r: Result<FileTime, TimeError>)
    requires
        meta.well_formed(),
    ensures
        match meta.modified {
            Some(d) => r == (if d.fits() {
                Ok::<FileTime, TimeError>(filetime_of(d))
            } else {
                Err::<FileTime, TimeError>(TimeError::Clock)
            }),
            None => r == Err::<FileTime, TimeError>(TimeError::Clock),
        },
{
    match &meta.modified {
        Some(d) => duration_to_filetime(d),
        None => Err(TimeError::Clock),
    }
}

/// The last-access time of the entry, or `TimeError::Clock` where the host
/// reported none.
pub fn from_last_access_time(meta: &Metadata) -> (r: Result<FileTime, TimeError>)
    requires
        meta.well_formed(),
    ensures
        match meta.accessed {
            Some(d) => r == (if d.fits() {
                Ok::<FileTime, TimeError>(filetime_of(d))
            } else {
                Err::<FileTime, TimeError>(TimeError::Clock)
            }),
            None => r == Err::<FileTime, TimeError>(TimeError::Clock),
        },
{
    match &meta.accessed {
        Some(d) => duration_to_filetime(d),
        None => Err(TimeError::Clock),
    }
}

/// The creation time of the entry, or nothing where the filesystem does not
/// track it or the report does not fit the portable form. Absence means
/// "unknown", never the epoch.
pub fn from_creation_time(meta: &Metadata) -> (r: Option<FileTime>)
    requires
        meta.well_formed(),
    ensures
        match meta.created {
            Some(d) => r == (if d.fits() {
                Some(filetime_of(d))
            } else {
                None::<FileTime>
            }),
            None => r == None::<FileTime>,
        },
{
    match &meta.created {
        Some(d) => match duration_to_filetime(d) {
            Ok(t) => Some(t),
            Err(_) => None,
        },
        None => None,
    }
}

} // verus!
