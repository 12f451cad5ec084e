//! Portable filesystem timestamps for a capability-based host.
//!
//! The library converts between a portable `(seconds, nanos)` timestamp and
//! the host's native nanoseconds-since-epoch encoding, selects the syscall
//! flag masks for each timestamp-update operation, and reads timestamps out
//! of a metadata snapshot. The host calls themselves are left to the caller,
//! who passes the prepared arguments straight to the host primitive.

pub mod metadata;
pub mod time;
pub mod update;

pub use time::FileTime;
pub use metadata::{EpochDuration, Metadata, TimeError};
pub use update::{PathUpdate, HandleUpdate};
