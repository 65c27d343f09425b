//! The closed set of decode failures, each carrying diagnostic context.

use vstd::prelude::*;

verus! {

/// Central result type of this crate.
pub type Result<T, E = NtApiSetError> = core::result::Result<T, E>;

/// Central error type of this crate.
///
/// Attempted byte ranges are carried as `u64` start/end pairs: every range
/// computed while decoding derives from 32-bit header fields, so its end
/// always fits in 64 bits even when it lies far outside the section buffer.
#[derive(Clone, Copy, Debug, PartialEq, Eq, Structural)]
pub enum NtApiSetError {
    /// The `.apiset` section was not found in the PE file.
    ApiSetSectionNotFound,
    /// The `.apiset` section references data that is out of bounds of the PE
    /// file.
    ApiSetSectionOutOfBounds,
    /// An entry's name was expected at a byte range that exceeds the section
    /// buffer.
    EntryNameOutOfBounds {
        /// Start of the byte range where the entry name was expected.
        name_range_start: u64,
        /// End of the byte range where the entry name was expected.
        name_range_end: u64,
        /// Byte offset of the entry itself inside the section buffer.
        entry_offset: usize,
        /// Actual size of the section buffer.
        actual: usize,
    },
    /// The hash entry array's byte range exceeds the section buffer.
    HashEntriesOutOfBounds {
        /// Start of the byte range where the hash entries were expected.
        range_start: u64,
        /// End of the byte range where the hash entries were expected.
        range_end: u64,
        /// Actual size of the section buffer.
        actual: usize,
    },
    /// Fewer bytes were available than the fixed map header size.
    InvalidMapHeaderSize {
        /// Size in bytes of the map header.
        expected: usize,
        /// Actual size in bytes of the provided slice.
        actual: usize,
    },
    /// The namespace entry array's byte range exceeds the section buffer.
    NamespaceEntriesOutOfBounds {
        /// Start of the byte range where the namespace entries were expected.
        range_start: u64,
        /// End of the byte range where the namespace entries were expected.
        range_end: u64,
        /// Actual size of the section buffer.
        actual: usize,
    },
    /// The map reports a version other than the single supported one.
    UnsupportedVersion {
        /// Version number reported by the map header.
        version: u32,
    },
    /// A value entry array's byte range exceeds the section buffer.
    ValueEntriesOutOfBounds {
        /// Start of the byte range where the value entries were expected.
        range_start: u64,
        /// End of the byte range where the value entries were expected.
        range_end: u64,
        /// Actual size of the section buffer.
        actual: usize,
    },
}

} // verus!
