//! Value entries: the resolution targets of a namespace entry.

use core::ops::Range;

use vstd::prelude::*;

use crate::error::NtApiSetError;
use crate::error::Result;
use crate::format::VALUE_ENTRY_SIZE;
use crate::format::read_u32_le;
use crate::format::spec_value_flags_at;
use crate::format::spec_value_name_length_at;
use crate::format::spec_value_name_offset_at;
use crate::format::spec_value_value_length_at;
use crate::format::spec_value_value_offset_at;
use crate::u16str::U16StrLe;

verus! {

/// A single mapping entry of a namespace entry.
///
/// Returned by the [`ApiSetValueEntries`] iterator.
#[derive(Clone, Copy, Debug)]
pub struct ApiSetValueEntry<'a> {
    section_bytes: &'a [u8],
    position: usize,
    flags: u32,
    name_offset: u32,
    name_length: u32,
    value_offset: u32,
    value_length: u32,
}

impl<'a> ApiSetValueEntry<'a> {
    /// The section buffer this entry refers into.
    pub closed spec fn spec_section(&self) -> Seq<u8> {
        self.section_bytes@
    }

    /// Byte offset of this entry's record inside the section buffer.
    pub closed spec fn spec_position(&self) -> int {
        self.position as int
    }

    /// The record's `flags` field.
    pub closed spec fn spec_flags(&self) -> u32 {
        self.flags
    }

    /// The record's `name_offset` field.
    pub closed spec fn spec_name_offset(&self) -> u32 {
        self.name_offset
    }

    /// The record's `name_length` field.
    pub closed spec fn spec_name_length(&self) -> u32 {
        self.name_length
    }

    /// The record's `value_offset` field.
    pub closed spec fn spec_value_offset(&self) -> u32 {
        self.value_offset
    }

    /// The record's `value_length` field.
    pub closed spec fn spec_value_length(&self) -> u32 {
        self.value_length
    }

    /// This entry is the faithful reading of the value entry record at byte
    /// offset `pos` of section buffer `s`.
    pub open spec fn is_value_entry_at(&self, s: Seq<u8>, pos: int) -> bool {
        &&& self.spec_section() == s
        &&& self.spec_position() == pos
        &&& self.spec_flags() == spec_value_flags_at(s, pos)
        &&& self.spec_name_offset() == spec_value_name_offset_at(s, pos)
        &&& self.spec_name_length() == spec_value_name_length_at(s, pos)
        &&& self.spec_value_offset() == spec_value_value_offset_at(s, pos)
        &&& self.spec_value_length() == spec_value_value_length_at(s, pos)
    }

    /// Returns the raw `flags` field of this entry.
    ///
    /// The meaning of these flags is undocumented, so the plain 32-bit value
    /// is exposed verbatim.
    pub fn flags(&self) -> (r: u32)
        ensures
            r == self.spec_flags(),
    {
        self.flags
    }

    /// Returns the name of the importing module for this mapping, as raw
    /// UTF-16LE bytes.
    ///
    /// This string is always empty for the first value entry of a namespace
    /// entry. If non-empty, it ends with the importing module's file
    /// extension.
    pub fn name(&self) -> (r: Result<U16StrLe<'a>>)
        ensures
            ({
                let s = self.spec_section();
                let off = self.spec_name_offset() as int;
                let len = self.spec_name_length() as int;
                if off + len <= s.len() {
                    r matches Ok(u) && u@ == s.subrange(off, off + len)
                } else {
                    r == Err::<U16StrLe<'a>, NtApiSetError>(
                        NtApiSetError::EntryNameOutOfBounds {
                            name_range_start: off as u64,
                            name_range_end: (off + len) as u64,
                            entry_offset: self.spec_position() as usize,
                            actual: s.len() as usize,
                        },
                    )
                }
            }),
    {
        string_at(self.section_bytes, self.name_offset, self.name_length, self.position)
    }

    /// Returns the name of the host module this entry maps to, as raw
    /// UTF-16LE bytes. It ends with the host module's file extension.
    pub fn value(&self) -> (r: Result<U16StrLe<'a>>)
        ensures
            ({
                let s = self.spec_section();
                let off = self.spec_value_offset() as int;
                let len = self.spec_value_length() as int;
                if off + len <= s.len() {
                    r matches Ok(u) && u@ == s.subrange(off, off + len)
                } else {
                    r == Err::<U16StrLe<'a>, NtApiSetError>(
                        NtApiSetError::EntryNameOutOfBounds {
                            name_range_start: off as u64,
                            name_range_end: (off + len) as u64,
                            entry_offset: self.spec_position() as usize,
                            actual: s.len() as usize,
                        },
                    )
                }
            }),
    {
        string_at(self.section_bytes, self.value_offset, self.value_length, self.position)
    }
}

/// Resolves an `(offset, length)` string reference of the entry at byte
/// offset `position` against the section buffer, with overflow-checked
/// arithmetic.
fn string_at<'a>(section_bytes: &'a [u8], offset: u32, length: u32, position: usize) -> (r: Result<
    U16StrLe<'a>,
>)
    ensures
        ({
            let s = section_bytes@;
            let off = offset as int;
            let len = length as int;
            if off + len <= s.len() {
                r matches Ok(u) && u@ == s.subrange(off, off + len)
            } else {
                r == Err::<U16StrLe<'a>, NtApiSetError>(
                    NtApiSetError::EntryNameOutOfBounds {
                        name_range_start: off as u64,
                        name_range_end: (off + len) as u64,
                        entry_offset: position as usize,
                        actual: s.len() as usize,
                    },
                )
            }
        }),
{
    let blen: usize = section_bytes.len();
    let end64: u64 = offset as u64 + length as u64;
    if end64 <= blen as u64 {
        let start: usize = offset as usize;
        let end: usize = end64 as usize;
        Ok(U16StrLe(&section_bytes[start..end]))
    } else {
        Err(
            NtApiSetError::EntryNameOutOfBounds {
                name_range_start: offset as u64,
                name_range_end: end64,
                entry_offset: position,
                actual: blen,
            },
        )
    }
}

/// Iterator over the value entries of a namespace entry.
///
/// Returned by
/// [`ApiSetNamespaceEntry::value_entries`](crate::ApiSetNamespaceEntry::value_entries).
/// Value entries are sorted case-insensitively by the importing module's
/// name; the first entry is always the default entry, whose name is the
/// empty string. Copying the iterator is O(1) and yields an independent
/// cursor over the same range.
#[derive(Clone, Copy, Debug)]
pub struct ApiSetValueEntries<'a> {
    section_bytes: &'a [u8],
    start: usize,
    end: usize,
}

impl<'a> ApiSetValueEntries<'a> {
    #[verifier::type_invariant]
    closed spec fn inv(self) -> bool {
        self.end <= self.section_bytes@.len()
    }

    /// The section buffer this iterator reads from.
    pub closed spec fn spec_section(&self) -> Seq<u8> {
        self.section_bytes@
    }

    /// The cursor: byte offset of the next record to be produced.
    pub closed spec fn spec_start(&self) -> int {
        self.start as int
    }

    /// Byte offset one past the validated record array.
    pub closed spec fn spec_end(&self) -> int {
        self.end as int
    }

    /// How many whole records remain in front of the cursor.
    pub open spec fn spec_len(&self) -> int {
        if self.spec_start() <= self.spec_end() {
            (self.spec_end() - self.spec_start()) / VALUE_ENTRY_SIZE as int
        } else {
            0
        }
    }

    /// Creates an iterator over `range`, which the caller has already
    /// validated against the section buffer (`range.end` does not exceed the
    /// buffer's length).
    pub fn new(section_bytes: &'a [u8], range: Range<usize>) -> (r: Self)
        requires
            range.end <= section_bytes@.len(),
        ensures
            r.spec_section() == section_bytes@,
            r.spec_start() == range.start,
            r.spec_end() == range.end,
    {
        Self { section_bytes, start: range.start, end: range.end }
    }

    /// The number of records left, known without consuming the sequence.
    pub fn len(&self) -> (r: usize)
        ensures
            r == self.spec_len(),
    {
        if self.start <= self.end {
            (self.end - self.start) / VALUE_ENTRY_SIZE
        } else {
            0
        }
    }

    /// Parses the record at the cursor and advances past it; yields `None`
    /// once fewer bytes than one record remain.
    pub fn next(&mut self) -> (r: Option<ApiSetValueEntry<'a>>)
        ensures
            final(self).spec_section() == old(self).spec_section(),
            final(self).spec_end() == old(self).spec_end(),
            ({
                let s = old(self).spec_section();
                let st = old(self).spec_start();
                if st + VALUE_ENTRY_SIZE <= old(self).spec_end() {
                    &&& r matches Some(e) && e.is_value_entry_at(s, st)
                    &&& final(self).spec_start() == st + VALUE_ENTRY_SIZE
                } else {
                    &&& r is None
                    &&& final(self).spec_start() == st
                }
            }),
    {
        proof {
            use_type_invariant(&*self);
        }
        if self.start <= self.end && self.end - self.start >= VALUE_ENTRY_SIZE {
            let entry = ApiSetValueEntry {
                section_bytes: self.section_bytes,
                position: self.start,
                flags: read_u32_le(self.section_bytes, self.start),
                name_offset: read_u32_le(self.section_bytes, self.start + 4),
                name_length: read_u32_le(self.section_bytes, self.start + 8),
                value_offset: read_u32_le(self.section_bytes, self.start + 12),
                value_length: read_u32_le(self.section_bytes, self.start + 16),
            };
            self.start = self.start + VALUE_ENTRY_SIZE;
            Some(entry)
        } else {
            None
        }
    }
}

} // verus!
