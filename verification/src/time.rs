//! The portable timestamp and its conversion to and from the host's native
//! nanoseconds-since-epoch encoding.

use vstd::prelude::*;
use vstd::arithmetic::div_mod::lemma_fundamental_div_mod_converse;

verus! {

/// Nanoseconds in one second; the base of the native encoding.
pub const NANOS_PER_SECOND: u64 = 1_000_000_000;

/// A point in time since the UNIX epoch (1970-01-01T00:00:00Z), as whole
/// seconds plus a sub-second remainder in nanoseconds.
///
/// `seconds` may be negative for pre-epoch instants, but only non-negative
/// timestamps have a native encoding. A well-formed value keeps
/// `nanos < NANOS_PER_SECOND`.
#[derive(Clone, Copy, Debug, PartialEq, Eq, Structural)]
pub struct FileTime {
    /// Whole seconds since the epoch.
    pub seconds: i64,
    /// Sub-second remainder, in nanoseconds.
    pub nanos: u32,
}

impl FileTime {
    /// Well-formedness: the sub-second part is a genuine remainder.
    pub open spec fn valid(self) -> bool {
        self.nanos < NANOS_PER_SECOND
    }

    /// The native encoding of this timestamp, as a mathematical integer:
    /// nanoseconds since the epoch.
    pub open spec fn native(self) -> int {
        self.seconds * NANOS_PER_SECOND + self.nanos
    }

    /// Whether this timestamp has a native encoding: it is not pre-epoch and
    /// its nanosecond count fits the host's unsigned 64-bit representation.
    pub open spec fn representable(self) -> bool {
        0 <= self.seconds && self.native() <= u64::MAX
    }

    /// The zero timestamp: the epoch itself. Reserved by the handle-based
    /// update operation as the "do not update this field" sentinel.
    pub fn zero() -> (r: FileTime)
        ensures
            r == (FileTime { seconds: 0, nanos: 0 }),
    {
        FileTime { seconds: 0, nanos: 0 }
    }

    /// Whether `to_native` accepts this timestamp.
    pub fn is_representable(&self) -> (r: bool)
        requires
            self.valid(),
        ensures
            r == self.representable(),
    {
        if self.seconds < 0 {
            false
        } else {
            let max_whole: u64 = u64::MAX / NANOS_PER_SECOND;
            let s: u64 = self.seconds as u64;
            if s < max_whole {
                proof {
                    assert(s * NANOS_PER_SECOND + self.nanos <= u64::MAX) by (nonlinear_arith)
                        requires
                            s < max_whole,
                            max_whole == u64::MAX as u64 / NANOS_PER_SECOND,
                            self.nanos < NANOS_PER_SECOND;
                }
                true
            } else if s > max_whole {
                proof {
                    assert(s * NANOS_PER_SECOND > u64::MAX) by (nonlinear_arith)
                        requires
                            s > max_whole,
                            max_whole == u64::MAX as u64 / NANOS_PER_SECOND;
                }
                false
            } else {
                let rest: u64 = u64::MAX % NANOS_PER_SECOND;
                proof {
                    assert(max_whole * NANOS_PER_SECOND + rest == u64::MAX) by (nonlinear_arith)
                        requires
                            max_whole == u64::MAX as u64 / NANOS_PER_SECOND,
                            rest == u64::MAX as u64 % NANOS_PER_SECOND;
                }
                self.nanos as u64 <= rest
            }
        }
    }
}

/// The host's native encoding of a timestamp: nanoseconds since the epoch in
/// unsigned 64-bit arithmetic, each timestamp contributing its own seconds
/// and its own sub-second remainder.
pub fn to_native(t: &FileTime) -> (r: u64)
    requires
        t.valid(),
        t.representable(),
    ensures
        r == t.native(),
{
    (t.seconds as u64) * NANOS_PER_SECOND + (t.nanos as u64)
}

/// The portable timestamp denoted by a native nanoseconds-since-epoch count:
/// the whole seconds and the remainder of division by one second.
pub fn from_native(native: u64) -> (r: FileTime)
    ensures
        r.valid(),
        r.representable(),
        r.seconds == native as int / NANOS_PER_SECOND as int,
        r.nanos == native as int % NANOS_PER_SECOND as int,
        r.native() == native,
        r == from_native_spec(native),
{
    let seconds: u64 = native / NANOS_PER_SECOND;
    let nanos: u64 = native % NANOS_PER_SECOND;
    proof {
        assert(seconds * NANOS_PER_SECOND + nanos == native) by (nonlinear_arith)
            requires
                seconds == native / NANOS_PER_SECOND,
                nanos == native % NANOS_PER_SECOND;
    }
    FileTime { seconds: seconds as i64, nanos: nanos as u32 }
}

/// The conversion to the native encoding loses nothing: decoding the encoded
/// value yields the original timestamp, field for field.
pub proof fn lemma_native_round_trip(t: FileTime)
    requires
        t.valid(),
        t.representable(),
    ensures
        from_native_spec(t.native() as u64) == t,
{
    let n: u64 = t.native() as u64;
    lemma_fundamental_div_mod_converse(
        n as int,
        NANOS_PER_SECOND as int,
        t.seconds as int,
        t.nanos as int,
    );
}

/// What `from_native` returns, as a spec-level function of the native count.
pub open spec fn from_native_spec(native: u64) -> FileTime {
    FileTime {
        seconds: (native as int / NANOS_PER_SECOND as int) as i64,
        nanos: (native as int % NANOS_PER_SECOND as int) as u32,
    }
}

/// The native encoding preserves the timestamp order: an earlier timestamp
/// (smaller seconds, or equal seconds and smaller nanos) encodes to a
/// strictly smaller native count.
pub proof fn lemma_native_monotonic(t1: FileTime, t2: FileTime)
    requires
        t1.valid(),
        t2.valid(),
        t1.seconds < t2.seconds || (t1.seconds == t2.seconds && t1.nanos < t2.nanos),
    ensures
        t1.native() < t2.native(),
{
    if t1.seconds < t2.seconds {
        assert(t1.seconds * NANOS_PER_SECOND + NANOS_PER_SECOND <= t2.seconds * NANOS_PER_SECOND)
            by (nonlinear_arith)
            requires
                t1.seconds < t2.seconds;
    }
}

} // verus!
