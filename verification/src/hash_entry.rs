//! Hash entries: the sorted `(hash, index)` lookup table of the map.

use core::ops::Range;

use vstd::prelude::*;

use crate::format::HASH_ENTRY_SIZE;
use crate::format::le32_at;
use crate::format::read_u32_le;

verus! {

/// A single hash entry of an API Set Map.
///
/// These entries implement the hash table for faster lookup of namespace
/// entries. They are returned by the [`ApiSetHashEntries`] iterator; the
/// lookup engine of [`ApiSetMap`](crate::ApiSetMap) uses them internally.
#[derive(Clone, Copy, Debug, PartialEq, Eq, Structural)]
pub struct ApiSetHashEntry {
    hash: u32,
    index: u32,
}

impl ApiSetHashEntry {
    /// The `hash` field.
    pub closed spec fn spec_hash(&self) -> u32 {
        self.hash
    }

    /// The `index` field.
    pub closed spec fn spec_index(&self) -> u32 {
        self.index
    }

    /// Returns the hash value of this entry.
    pub fn hash(&self) -> (r: u32)
        ensures
            r == self.spec_hash(),
    {
        self.hash
    }

    /// Returns the index of the mapped namespace entry.
    ///
    /// This index counts namespace entry records (it is not a byte offset)
    /// and is untrusted data: the lookup engine re-validates it against the
    /// map's `count` before use.
    pub fn index(&self) -> (r: u32)
        ensures
            r == self.spec_index(),
    {
        self.index
    }
}

/// Iterator over the hash entries of an API Set Map.
///
/// Returned by [`ApiSetMap::hash_entries`](crate::ApiSetMap::hash_entries).
/// Hash entries are sorted by hash value. Copying the iterator is O(1) and
/// yields an independent cursor over the same range.
#[derive(Clone, Copy, Debug)]
pub struct ApiSetHashEntries<'a> {
    section_bytes: &'a [u8],
    start: usize,
    end: usize,
}

impl<'a> ApiSetHashEntries<'a> {
    #[verifier::type_invariant]
    closed spec fn inv(self) -> bool {
        self.end <= self.section_bytes@.len()
    }

    /// The section buffer this iterator reads from.
    pub closed spec fn spec_section(&self) -> Seq<u8> {
        self.section_bytes@
    }

    /// The cursor: byte offset of the next record to be produced.
    pub closed spec fn spec_start(&self) -> int {
        self.start as int
    }

    /// Byte offset one past the validated record array.
    pub closed spec fn spec_end(&self) -> int {
        self.end as int
    }

    /// How many whole records remain in front of the cursor.
    pub open spec fn spec_len(&self) -> int {
        if self.spec_start() <= self.spec_end() {
            (self.spec_end() - self.spec_start()) / HASH_ENTRY_SIZE as int
        } else {
            0
        }
    }

    /// Creates an iterator over `range`, which the caller has already
    /// validated against the section buffer (`range.end` does not exceed the
    /// buffer's length).
    pub fn new(section_bytes: &'a [u8], range: Range<usize>) -> (r: Self)
        requires
            range.end <= section_bytes@.len(),
        ensures
            r.spec_section() == section_bytes@,
            r.spec_start() == range.start,
            r.spec_end() == range.end,
    {
        Self { section_bytes, start: range.start, end: range.end }
    }

    /// The number of records left, known without consuming the sequence.
    pub fn len(&self) -> (r: usize)
        ensures
            r == self.spec_len(),
    {
        if self.start <= self.end {
            (self.end - self.start) / HASH_ENTRY_SIZE
        } else {
            0
        }
    }

    /// Parses the record at the cursor and advances past it; yields `None`
    /// once fewer bytes than one record remain.
    pub fn next(&mut self) -> (r: Option<ApiSetHashEntry>)
        ensures
            final(self).spec_section() == old(self).spec_section(),
            final(self).spec_end() == old(self).spec_end(),
            ({
                let s = old(self).spec_section();
                let st = old(self).spec_start();
                if st + HASH_ENTRY_SIZE <= old(self).spec_end() {
                    &&& r matches Some(e) && e.spec_hash() == le32_at(s, st) && e.spec_index()
                        == le32_at(s, st + 4)
                    &&& final(self).spec_start() == st + HASH_ENTRY_SIZE
                } else {
                    &&& r is None
                    &&& final(self).spec_start() == st
                }
            }),
    {
        proof {
            use_type_invariant(&*self);
        }
        if self.start <= self.end && self.end - self.start >= HASH_ENTRY_SIZE {
            let hash: u32 = read_u32_le(self.section_bytes, self.start);
            let index: u32 = read_u32_le(self.section_bytes, self.start + 4);
            self.start = self.start + HASH_ENTRY_SIZE;
            Some(ApiSetHashEntry { hash, index })
        } else {
            None
        }
    }

    /// Skips directly to the `n`-th remaining record and produces it,
    /// advancing the cursor past it. Overflow while computing the skip is a
    /// rejecting `None`, never a wraparound.
    pub fn nth(&mut self, n: usize) -> (r: Option<ApiSetHashEntry>)
        ensures
            final(self).spec_section() == old(self).spec_section(),
            final(self).spec_end() == old(self).spec_end(),
            ({
                let s = old(self).spec_section();
                let st = old(self).spec_start();
                let en = old(self).spec_end();
                if HASH_ENTRY_SIZE * n > usize::MAX || st + HASH_ENTRY_SIZE * n > usize::MAX {
                    &&& r is None
                    &&& final(self).spec_start() == st
                } else if st + HASH_ENTRY_SIZE * n + HASH_ENTRY_SIZE <= en {
                    &&& r matches Some(e) && e.spec_hash() == le32_at(s, st + HASH_ENTRY_SIZE * n)
                        && e.spec_index() == le32_at(s, st + HASH_ENTRY_SIZE * n + 4)
                    &&& final(self).spec_start() == st + HASH_ENTRY_SIZE * n + HASH_ENTRY_SIZE
                } else {
                    &&& r is None
                    &&& final(self).spec_start() == st + HASH_ENTRY_SIZE * n
                }
            }),
    {
        proof {
            use_type_invariant(&*self);
        }
        let bytes_to_skip: usize = match n.checked_mul(HASH_ENTRY_SIZE) {
            Some(b) => b,
            None => {
                return None;
            },
        };
        match self.start.checked_add(bytes_to_skip) {
            Some(s) => {
                self.start = s;
            },
            None => {
                return None;
            },
        }
        self.next()
    }
}

} // verus!
