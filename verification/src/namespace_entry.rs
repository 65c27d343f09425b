//! Namespace entries: one record per API Set name, each pointing at its
//! UTF-16LE name and its array of value entries.

use core::ops::Range;

use vstd::prelude::*;

use crate::error::NtApiSetError;
use crate::error::Result;
use crate::format::NAMESPACE_ENTRY_SIZE;
use crate::format::VALUE_ENTRY_SIZE;
use crate::format::read_u32_le;
use crate::format::spec_ns_array_count_at;
use crate::format::spec_ns_array_offset_at;
use crate::format::spec_ns_flags_at;
use crate::format::spec_ns_hashed_length_at;
use crate::format::spec_ns_name_length_at;
use crate::format::spec_ns_name_offset_at;
use crate::u16str::U16StrLe;
use crate::value_entry::ApiSetValueEntries;

verus! {

/// Flags of a namespace entry.
#[derive(Clone, Copy, Debug, PartialEq, Eq, Structural)]
pub struct ApiSetNamespaceEntryFlags {
    bits: u32,
}

impl ApiSetNamespaceEntryFlags {
    /// The raw flag bits.
    pub closed spec fn spec_bits(&self) -> u32 {
        self.bits
    }

    /// Keeps the two known flag bits and truncates any unknown ones.
    pub fn from_bits_truncate(bits: u32) -> (r: Self)
        ensures
            r.spec_bits() == bits & 3,
    {
        ApiSetNamespaceEntryFlags { bits: bits & 3 }
    }

    /// Returns the raw flag bits.
    pub fn bits(&self) -> (r: u32)
        ensures
            r == self.spec_bits(),
    {
        self.bits
    }

    /// This namespace entry is sealed: the loader shall not look for a
    /// schema extension.
    pub fn sealed(&self) -> (r: bool)
        ensures
            r == (self.spec_bits() & 1 != 0),
    {
        self.bits & 1 != 0
    }

    /// This namespace entry is an extension (its name begins with `ext-`
    /// rather than `api-`).
    pub fn is_extension(&self) -> (r: bool)
        ensures
            r == (self.spec_bits() & 2 != 0),
    {
        self.bits & 2 != 0
    }
}

/// A single namespace entry of an API Set Map.
///
/// Returned by the [`ApiSetNamespaceEntries`] iterator and by
/// [`ApiSetMap::find_namespace_entry`](crate::ApiSetMap::find_namespace_entry).
#[derive(Clone, Copy, Debug)]
pub struct ApiSetNamespaceEntry<'a> {
    section_bytes: &'a [u8],
    position: usize,
    flags: u32,
    name_offset: u32,
    name_length: u32,
    hashed_length: u32,
    array_offset: u32,
    array_count: u32,
}

impl<'a> ApiSetNamespaceEntry<'a> {
    /// The section buffer this entry refers into.
    pub closed spec fn spec_section(&self) -> Seq<u8> {
        self.section_bytes@
    }

    /// Byte offset of this entry's record inside the section buffer.
    pub closed spec fn spec_position(&self) -> int {
        self.position as int
    }

    /// The record's `flags` field.
    pub closed spec fn spec_flags(&self) -> u32 {
        self.flags
    }

    /// The record's `name_offset` field.
    pub closed spec fn spec_name_offset(&self) -> u32 {
        self.name_offset
    }

    /// The record's `name_length` field.
    pub closed spec fn spec_name_length(&self) -> u32 {
        self.name_length
    }

    /// The record's `hashed_length` field.
    pub closed spec fn spec_hashed_length(&self) -> u32 {
        self.hashed_length
    }

    /// The record's `array_offset` field.
    pub closed spec fn spec_array_offset(&self) -> u32 {
        self.array_offset
    }

    /// The record's `array_count` field.
    pub closed spec fn spec_array_count(&self) -> u32 {
        self.array_count
    }

    /// This entry is the faithful reading of the namespace entry record at
    /// byte offset `pos` of section buffer `s`.
    pub open spec fn is_namespace_entry_at(&self, s: Seq<u8>, pos: int) -> bool {
        &&& self.spec_section() == s
        &&& self.spec_position() == pos
        &&& self.spec_flags() == spec_ns_flags_at(s, pos)
        &&& self.spec_name_offset() == spec_ns_name_offset_at(s, pos)
        &&& self.spec_name_length() == spec_ns_name_length_at(s, pos)
        &&& self.spec_hashed_length() == spec_ns_hashed_length_at(s, pos)
        &&& self.spec_array_offset() == spec_ns_array_offset_at(s, pos)
        &&& self.spec_array_count() == spec_ns_array_count_at(s, pos)
    }

    /// The name bytes this entry points at, when they lie inside the
    /// section buffer.
    pub open spec fn spec_name_bytes(&self) -> Seq<u8> {
        self.spec_section().subrange(
            self.spec_name_offset() as int,
            self.spec_name_offset() + self.spec_name_length(),
        )
    }

    /// Returns the flags set for this namespace entry.
    pub fn flags(&self) -> (r: ApiSetNamespaceEntryFlags)
        ensures
            r.spec_bits() == self.spec_flags() & 3,
    {
        ApiSetNamespaceEntryFlags::from_bits_truncate(self.flags)
    }

    /// Returns the name of this API Set namespace entry as raw UTF-16LE
    /// bytes.
    ///
    /// The name should begin with either `api-` or `ext-` and does not end
    /// with a file extension.
    pub fn name(&self) -> (r: Result<U16StrLe<'a>>)
        ensures
            ({
                let s = self.spec_section();
                let off = self.spec_name_offset() as int;
                let len = self.spec_name_length() as int;
                if off + len <= s.len() {
                    r matches Ok(u) && u@ == self.spec_name_bytes()
                } else {
                    r == Err::<U16StrLe<'a>, NtApiSetError>(
                        NtApiSetError::EntryNameOutOfBounds {
                            name_range_start: off as u64,
                            name_range_end: (off + len) as u64,
                            entry_offset: self.spec_position() as usize,
                            actual: s.len() as usize,
                        },
                    )
                }
            }),
    {
        let blen: usize = self.section_bytes.len();
        let end64: u64 = self.name_offset as u64 + self.name_length as u64;
        if end64 <= blen as u64 {
            let start: usize = self.name_offset as usize;
            let end: usize = end64 as usize;
            Ok(U16StrLe(&self.section_bytes[start..end]))
        } else {
            Err(
                NtApiSetError::EntryNameOutOfBounds {
                    name_range_start: self.name_offset as u64,
                    name_range_end: end64,
                    entry_offset: self.position,
                    actual: blen,
                },
            )
        }
    }

    /// Returns an iterator over the value entries of this namespace entry,
    /// after validating their byte range against the section buffer with
    /// overflow-checked arithmetic.
    ///
    /// These entries describe the mapping destinations of the namespace
    /// entry.
    pub fn value_entries(&self) -> (r: Result<ApiSetValueEntries<'a>>)
        ensures
            ({
                let s = self.spec_section();
                let off = self.spec_array_offset() as int;
                let end = off + VALUE_ENTRY_SIZE * self.spec_array_count();
                if end <= s.len() {
                    &&& r matches Ok(it)
                    &&& it.spec_section() == s
                    &&& it.spec_start() == off
                    &&& it.spec_end() == end
                    &&& it.spec_len() == self.spec_array_count()
                } else {
                    r == Err::<ApiSetValueEntries<'a>, NtApiSetError>(
                        NtApiSetError::ValueEntriesOutOfBounds {
                            range_start: off as u64,
                            range_end: end as u64,
                            actual: s.len() as usize,
                        },
                    )
                }
            }),
    {
        let blen: usize = self.section_bytes.len();
        let start64: u64 = self.array_offset as u64;
        let count64: u64 = self.array_count as u64;
        proof {
            assert((VALUE_ENTRY_SIZE as u64) * count64 <= 20 * 0xffff_ffffu64) by (nonlinear_arith)
                requires
                    count64 <= 0xffff_ffffu64,
            ;
        }
        let end64: u64 = start64 + (VALUE_ENTRY_SIZE as u64) * count64;
        if end64 <= blen as u64 {
            let start: usize = self.array_offset as usize;
            let end: usize = end64 as usize;
            let it = ApiSetValueEntries::new(self.section_bytes, start..end);
            proof {
                assert(it.spec_len() == (VALUE_ENTRY_SIZE * self.spec_array_count())
                    / VALUE_ENTRY_SIZE as int);
                assert((VALUE_ENTRY_SIZE * self.spec_array_count()) / VALUE_ENTRY_SIZE as int
                    == self.spec_array_count()) by (nonlinear_arith);
            }
            Ok(it)
        } else {
            Err(
                NtApiSetError::ValueEntriesOutOfBounds {
                    range_start: start64,
                    range_end: end64,
                    actual: blen,
                },
            )
        }
    }
}

/// Iterator over the namespace entries of an API Set Map.
///
/// Returned by
/// [`ApiSetMap::namespace_entries`](crate::ApiSetMap::namespace_entries).
/// Namespace entries are sorted case-insensitively by the name of the API
/// Set. Copying the iterator is O(1) and yields an independent cursor over
/// the same range.
#[derive(Clone, Copy, Debug)]
pub struct ApiSetNamespaceEntries<'a> {
    section_bytes: &'a [u8],
    start: usize,
    end: usize,
}

impl<'a> ApiSetNamespaceEntries<'a> {
    #[verifier::type_invariant]
    closed spec fn inv(self) -> bool {
        self.end <= self.section_bytes@.len()
    }

    /// The section buffer this iterator reads from.
    pub closed spec fn spec_section(&self) -> Seq<u8> {
        self.section_bytes@
    }

    /// The cursor: byte offset of the next record to be produced.
    pub closed spec fn spec_start(&self) -> int {
        self.start as int
    }

    /// Byte offset one past the validated record array.
    pub closed spec fn spec_end(&self) -> int {
        self.end as int
    }

    /// How many whole records remain in front of the cursor.
    pub open spec fn spec_len(&self) -> int {
        if self.spec_start() <= self.spec_end() {
            (self.spec_end() - self.spec_start()) / NAMESPACE_ENTRY_SIZE as int
        } else {
            0
        }
    }

    /// Creates an iterator over `range`, which the caller has already
    /// validated against the section buffer (`range.end` does not exceed the
    /// buffer's length).
    pub fn new(section_bytes: &'a [u8], range: Range<usize>) -> (r: Self)
        requires
            range.end <= section_bytes@.len(),
        ensures
            r.spec_section() == section_bytes@,
            r.spec_start() == range.start,
            r.spec_end() == range.end,
    {
        Self { section_bytes, start: range.start, end: range.end }
    }

    /// The number of records left, known without consuming the sequence.
    pub fn len(&self) -> (r: usize)
        ensures
            r == self.spec_len(),
    {
        if self.start <= self.end {
            (self.end - self.start) / NAMESPACE_ENTRY_SIZE
        } else {
            0
        }
    }

    /// Parses the record at the cursor and advances past it; yields `None`
    /// once fewer bytes than one record remain.
    pub fn next(&mut self) -> (r: Option<ApiSetNamespaceEntry<'a>>)
        ensures
            final(self).spec_section() == old(self).spec_section(),
            final(self).spec_end() == old(self).spec_end(),
            ({
                let s = old(self).spec_section();
                let st = old(self).spec_start();
                if st + NAMESPACE_ENTRY_SIZE <= old(self).spec_end() {
                    &&& r matches Some(e) && e.is_namespace_entry_at(s, st)
                    &&& final(self).spec_start() == st + NAMESPACE_ENTRY_SIZE
                } else {
                    &&& r is None
                    &&& final(self).spec_start() == st
                }
            }),
    {
        proof {
            use_type_invariant(&*self);
        }
        if self.start <= self.end && self.end - self.start >= NAMESPACE_ENTRY_SIZE {
            let entry = ApiSetNamespaceEntry {
                section_bytes: self.section_bytes,
                position: self.start,
                flags: read_u32_le(self.section_bytes, self.start),
                name_offset: read_u32_le(self.section_bytes, self.start + 4),
                name_length: read_u32_le(self.section_bytes, self.start + 8),
                hashed_length: read_u32_le(self.section_bytes, self.start + 12),
                array_offset: read_u32_le(self.section_bytes, self.start + 16),
                array_count: read_u32_le(self.section_bytes, self.start + 20),
            };
            self.start = self.start + NAMESPACE_ENTRY_SIZE;
            Some(entry)
        } else {
            None
        }
    }

    /// Skips directly to the `n`-th remaining record and produces it,
    /// advancing the cursor past it. Overflow while computing the skip is a
    /// rejecting `None`, never a wraparound.
    pub fn nth(&mut self, n: usize) -> (r: Option<ApiSetNamespaceEntry<'a>>)
        ensures
            final(self).spec_section() == old(self).spec_section(),
            final(self).spec_end() == old(self).spec_end(),
            ({
                let s = old(self).spec_section();
                let st = old(self).spec_start();
                let en = old(self).spec_end();
                if NAMESPACE_ENTRY_SIZE * n > usize::MAX || st + NAMESPACE_ENTRY_SIZE * n
                    > usize::MAX {
                    &&& r is None
                    &&& final(self).spec_start() == st
                } else if st + NAMESPACE_ENTRY_SIZE * n + NAMESPACE_ENTRY_SIZE <= en {
                    &&& r matches Some(e) && e.is_namespace_entry_at(
                        s,
                        st + NAMESPACE_ENTRY_SIZE * n,
                    )
                    &&& final(self).spec_start() == st + NAMESPACE_ENTRY_SIZE * n
                        + NAMESPACE_ENTRY_SIZE
                } else {
                    &&& r is None
                    &&& final(self).spec_start() == st + NAMESPACE_ENTRY_SIZE * n
                }
            }),
    {
        proof {
            use_type_invariant(&*self);
        }
        let bytes_to_skip: usize = match n.checked_mul(NAMESPACE_ENTRY_SIZE) {
            Some(b) => b,
            None => {
                return None;
            },
        };
        match self.start.checked_add(bytes_to_skip) {
            Some(s) => {
                self.start = s;
            },
            None => {
                return None;
            },
        }
        self.next()
    }
}

} // verus!
