//! The map decoder: header parsing, array validation, and the hash-based
//! lookup engine replicating the operating-system loader's resolution rule.

use vstd::prelude::*;

use crate::error::NtApiSetError;
use crate::error::Result;
use crate::format::APISET_VERSION_WINDOWS_10;
use crate::format::HASH_ENTRY_SIZE;
use crate::format::MAP_HEADER_SIZE;
use crate::format::NAMESPACE_ENTRY_SIZE;
use crate::format::read_u32_le;
use crate::format::spec_count;
use crate::format::spec_hash_entry_offset;
use crate::format::spec_hash_factor;
use crate::format::spec_map_flags;
use crate::format::spec_map_size;
use crate::format::spec_map_wf;
use crate::format::spec_namespace_entry_offset;
use crate::format::lemma_last_hyphen;
use crate::format::spec_apiset_hash;
use crate::format::spec_has_hyphen;
use crate::format::spec_hash_entry_hash;
use crate::format::spec_hash_entry_index;
use crate::format::spec_hash_slot;
use crate::format::spec_hashes_sorted;
use crate::format::spec_last_hyphen;
use crate::format::spec_ns_entry_pos;
use crate::format::spec_ns_name_length_at;
use crate::format::spec_ns_name_offset_at;
use crate::format::spec_query_char;
use crate::format::spec_query_hash;
use crate::format::spec_unique_hash;
use crate::format::spec_utf16le_of_ascii;
use crate::format::spec_valid_query;
use crate::format::spec_version;
use crate::hash_entry::ApiSetHashEntries;
use crate::namespace_entry::ApiSetNamespaceEntries;
use crate::namespace_entry::ApiSetNamespaceEntry;

verus! {

/// Flags of an API Set Map.
#[derive(Clone, Copy, Debug, PartialEq, Eq, Structural)]
pub struct ApiSetMapFlags {
    bits: u32,
}

impl ApiSetMapFlags {
    /// The raw flag bits.
    pub closed spec fn spec_bits(&self) -> u32 {
        self.bits
    }

    /// Keeps the two known flag bits and truncates any unknown ones.
    pub fn from_bits_truncate(bits: u32) -> (r: Self)
        ensures
            r.spec_bits() == bits & 3,
    {
        ApiSetMapFlags { bits: bits & 3 }
    }

    /// Returns the raw flag bits.
    pub fn bits(&self) -> (r: u32)
        ensures
            r == self.spec_bits(),
    {
        self.bits
    }

    /// This map is sealed: the loader shall not look for schema extensions.
    pub fn sealed(&self) -> (r: bool)
        ensures
            r == (self.spec_bits() & 1 != 0),
    {
        self.bits & 1 != 0
    }

    /// This map is a schema extension.
    pub fn is_extension(&self) -> (r: bool)
        ensures
            r == (self.spec_bits() & 2 != 0),
    {
        self.bits & 2 != 0
    }
}

/// Relies on pelite's `Pe::section_headers`, `SectionHeaders::by_name` and
/// `Pe::get_section_bytes`: looks up the section header named `.apiset` in
/// the image and borrows the bytes that header declares. A missing section
/// and a section whose declared bytes fall outside the image map to the two
/// section errors of this crate; nothing further is assumed about the bytes.
#[verifier::external_body]
fn apiset_section_bytes<'a, T: pelite::pe64::Pe<'a>>(pe64: T) -> (r: Result<&'a [u8]>)
    ensures
        r matches Err(e) ==> (e == NtApiSetError::ApiSetSectionNotFound || e
            == NtApiSetError::ApiSetSectionOutOfBounds),
{
    let apiset_section_header = match pe64.section_headers().by_name(".apiset") {
        Some(h) => h,
        None => return Err(NtApiSetError::ApiSetSectionNotFound),
    };
    pe64.get_section_bytes(apiset_section_header).map_err(|_| NtApiSetError::ApiSetSectionOutOfBounds)
}

/// The fixed-size header at the front of the section buffer, copied into
/// plain fields.
#[derive(Clone, Copy, Debug)]
struct ApiSetMapHeader {
    version: u32,
    size: u32,
    flags: u32,
    count: u32,
    namespace_entry_offset: u32,
    hash_entry_offset: u32,
    hash_factor: u32,
}

/// Root structure describing an API Set Map.
///
/// A value of this type only exists for a section buffer whose header and
/// whose two entry arrays have been validated; the accessors can therefore
/// never read out of bounds.
#[derive(Clone, Copy, Debug)]
pub struct ApiSetMap<'a> {
    section_bytes: &'a [u8],
    header: ApiSetMapHeader,
}

impl<'a> ApiSetMap<'a> {
    #[verifier::type_invariant]
    closed spec fn inv(self) -> bool {
        let s = self.section_bytes@;
        &&& spec_map_wf(s)
        &&& self.header.version == spec_version(s)
        &&& self.header.size == spec_map_size(s)
        &&& self.header.flags == spec_map_flags(s)
        &&& self.header.count == spec_count(s)
        &&& self.header.namespace_entry_offset == spec_namespace_entry_offset(s)
        &&& self.header.hash_entry_offset == spec_hash_entry_offset(s)
        &&& self.header.hash_factor == spec_hash_factor(s)
    }

    /// The section buffer this map is a view over.
    pub closed spec fn spec_section(&self) -> Seq<u8> {
        self.section_bytes@
    }

    /// Creates an `ApiSetMap` from the raw bytes of the `.apiset` section of
    /// an API Set Map file.
    ///
    /// The header is read and the version checked; the byte ranges of the
    /// hash entry array and the namespace entry array are each validated
    /// against the buffer's length with overflow-checked arithmetic. Exactly
    /// the malformed inputs yield the matching error.
    pub fn try_from_apiset_section_bytes(section_bytes: &'a [u8]) -> (r: Result<Self>)
        ensures
            ({
                let s = section_bytes@;
                let hash_end = spec_hash_entry_offset(s) + HASH_ENTRY_SIZE * spec_count(s);
                let ns_end = spec_namespace_entry_offset(s) + NAMESPACE_ENTRY_SIZE * spec_count(s);
                if s.len() < MAP_HEADER_SIZE {
                    r == Err::<Self, NtApiSetError>(
                        (NtApiSetError::InvalidMapHeaderSize {
                            expected: MAP_HEADER_SIZE,
                            actual: s.len() as usize,
                        }),
                    )
                } else if spec_version(s) != APISET_VERSION_WINDOWS_10 {
                    r == Err::<Self, NtApiSetError>(
                        (NtApiSetError::UnsupportedVersion { version: spec_version(s) }),
                    )
                } else if hash_end > s.len() {
                    r == Err::<Self, NtApiSetError>(
                        (NtApiSetError::HashEntriesOutOfBounds {
                            range_start: spec_hash_entry_offset(s) as u64,
                            range_end: hash_end as u64,
                            actual: s.len() as usize,
                        }),
                    )
                } else if ns_end > s.len() {
                    r == Err::<Self, NtApiSetError>(
                        (NtApiSetError::NamespaceEntriesOutOfBounds {
                            range_start: spec_namespace_entry_offset(s) as u64,
                            range_end: ns_end as u64,
                            actual: s.len() as usize,
                        }),
                    )
                } else {
                    &&& r matches Ok(m)
                    &&& m.spec_section() == s
                    &&& spec_map_wf(s)
                }
            }),
    {
        let length: usize = section_bytes.len();
        if length < MAP_HEADER_SIZE {
            return Err(
                NtApiSetError::InvalidMapHeaderSize { expected: MAP_HEADER_SIZE, actual: length },
            );
        }
        let header = ApiSetMapHeader {
            version: read_u32_le(section_bytes, 0),
            size: read_u32_le(section_bytes, 4),
            flags: read_u32_le(section_bytes, 8),
            count: read_u32_le(section_bytes, 12),
            namespace_entry_offset: read_u32_le(section_bytes, 16),
            hash_entry_offset: read_u32_le(section_bytes, 20),
            hash_factor: read_u32_le(section_bytes, 24),
        };
        // The record layouts differ across older map versions; decoding any
        // other version would silently misinterpret fields.
        if header.version != APISET_VERSION_WINDOWS_10 {
            return Err(NtApiSetError::UnsupportedVersion { version: header.version });
        }
        let count64: u64 = header.count as u64;
        proof {
            assert((HASH_ENTRY_SIZE as u64) * count64 <= 8 * 0xffff_ffffu64) by (nonlinear_arith)
                requires
                    count64 <= 0xffff_ffffu64,
            ;
            assert((NAMESPACE_ENTRY_SIZE as u64) * count64 <= 24 * 0xffff_ffffu64)
                by (nonlinear_arith)
                requires
                    count64 <= 0xffff_ffffu64,
            ;
        }
        let hash_end64: u64 = header.hash_entry_offset as u64 + (HASH_ENTRY_SIZE as u64) * count64;
        if hash_end64 > length as u64 {
            return Err(
                NtApiSetError::HashEntriesOutOfBounds {
                    range_start: header.hash_entry_offset as u64,
                    range_end: hash_end64,
                    actual: length,
                },
            );
        }
        let ns_end64: u64 = header.namespace_entry_offset as u64 + (NAMESPACE_ENTRY_SIZE as u64)
            * count64;
        if ns_end64 > length as u64 {
            return Err(
                NtApiSetError::NamespaceEntriesOutOfBounds {
                    range_start: header.namespace_entry_offset as u64,
                    range_end: ns_end64,
                    actual: length,
                },
            );
        }
        Ok(Self { section_bytes, header })
    }

    /// Creates an `ApiSetMap` from an API Set Map file opened via the
    /// `pelite` crate.
    ///
    /// The PE image is only used to locate the `.apiset` section and borrow
    /// its bytes; everything after that is
    /// [`try_from_apiset_section_bytes`](Self::try_from_apiset_section_bytes)
    /// on those bytes.
    pub fn try_from_pe64<T: pelite::pe64::Pe<'a>>(pe64: T) -> (r: Result<Self>)
        ensures
            r matches Ok(m) ==> spec_map_wf(m.spec_section()),
            r matches Err(e) ==> (e is ApiSetSectionNotFound || e is ApiSetSectionOutOfBounds
                || e is InvalidMapHeaderSize || e is UnsupportedVersion
                || e is HashEntriesOutOfBounds || e is NamespaceEntriesOutOfBounds),
    {
        let section_bytes = match apiset_section_bytes(pe64) {
            Ok(b) => b,
            Err(e) => {
                return Err(e);
            },
        };
        Self::try_from_apiset_section_bytes(section_bytes)
    }

    /// Returns the flags set for this map.
    pub fn flags(&self) -> (r: ApiSetMapFlags)
        ensures
            r.spec_bits() == spec_map_flags(self.spec_section()) & 3,
    {
        proof {
            use_type_invariant(self);
        }
        ApiSetMapFlags::from_bits_truncate(self.header.flags)
    }

    /// Finds a namespace entry efficiently in the hash table of the map.
    ///
    /// `namespace_entry_name` must be non-empty and consist only of
    /// lowercase ASCII letters, digits, and hyphens.
    ///
    /// The operating-system loader's resolution rule is replicated exactly:
    /// the name up to, but not including, its last hyphen is hashed (a name
    /// without a hyphen yields "not found"); the sorted hash table is
    /// binary-searched for that hash; the namespace entry the matching slot
    /// points at is fetched, where an out-of-range index — corrupted data —
    /// yields "not found"; and the candidate's name is compared against the
    /// full, untrimmed query, since distinct names can collide on the
    /// trimmed prefix's hash. A failure to read the candidate's name
    /// propagates as a hard error; "not found" is an ordinary outcome.
    #[verifier::loop_isolation(false)]
    pub fn find_namespace_entry(&self, namespace_entry_name: &str) -> (r: Option<
        Result<ApiSetNamespaceEntry<'a>>,
    >)
        requires
            spec_valid_query(namespace_entry_name@),
        ensures
            ({
                let s = self.spec_section();
                let q = namespace_entry_name@;
                let qh = spec_query_hash(q, spec_hash_factor(s));
                let n = spec_count(s) as int;
                &&& (!spec_has_hyphen(q) ==> r is None)
                &&& (r matches Some(Ok(e)) ==> exists|j: int|
                    {
                        &&& 0 <= j < n
                        &&& #[trigger] spec_hash_entry_hash(s, j) == qh
                        &&& spec_hash_entry_index(s, j) < n
                        &&& e.is_namespace_entry_at(
                            s,
                            spec_ns_entry_pos(s, spec_hash_entry_index(s, j) as int),
                        )
                        &&& e.spec_name_offset() + e.spec_name_length() <= s.len()
                        &&& spec_utf16le_of_ascii(e.spec_name_bytes(), q)
                    })
                &&& (r matches Some(Err(err)) ==> err is EntryNameOutOfBounds)
                &&& ((spec_has_hyphen(q) && spec_hashes_sorted(s) && !spec_hash_slot(s, qh))
                    ==> r is None)
                &&& ((spec_has_hyphen(q) && spec_hashes_sorted(s) && spec_hash_slot(s, qh)
                    && spec_unique_hash(s, qh)) ==> ({
                    let j = choose|j: int|
                        0 <= j < n && #[trigger] spec_hash_entry_hash(s, j) == qh;
                    let idx = spec_hash_entry_index(s, j) as int;
                    let pos = spec_ns_entry_pos(s, idx);
                    let noff = spec_ns_name_offset_at(s, pos) as int;
                    let nlen = spec_ns_name_length_at(s, pos) as int;
                    if idx >= n {
                        r is None
                    } else if noff + nlen > s.len() {
                        r == Some(
                            Err::<ApiSetNamespaceEntry<'a>, NtApiSetError>(
                                (NtApiSetError::EntryNameOutOfBounds {
                                    name_range_start: noff as u64,
                                    name_range_end: (noff + nlen) as u64,
                                    entry_offset: pos as usize,
                                    actual: s.len() as usize,
                                }),
                            ),
                        )
                    } else if spec_utf16le_of_ascii(s.subrange(noff, noff + nlen), q) {
                        r matches Some(Ok(e)) && e.is_namespace_entry_at(s, pos)
                    } else {
                        r is None
                    }
                }))
            }),
    {
        proof {
            use_type_invariant(self);
        }
        let ghost s = self.section_bytes@;
        let ghost q = namespace_entry_name@;
        let qbytes = namespace_entry_name.as_bytes();
        proof {
            assert(vstd::string::is_ascii(namespace_entry_name)) by {
                assert forall|i: int|
                    0 <= i < q.len() implies '\0' <= #[trigger] q[i] <= '\u{7f}' by {
                    assert(spec_query_char(q[i]));
                }
            }
            vstd::string::is_ascii_spec_bytes(namespace_entry_name);
            assert forall|i: int| 0 <= i < q.len() implies qbytes@[i] == (#[trigger] q[i]) as u8 by {
                assert(qbytes@ =~= Seq::new(q.len(), |j: int| q[j] as u8));
            }
            assert(qbytes@.len() == q.len());
            lemma_last_hyphen(q);
        }
        let blen: usize = self.section_bytes.len();
        let qlen: usize = qbytes.len();

        // The loader hashes the supposed name up to, but not including, the
        // last hyphen; find that hyphen first.
        let mut i: usize = qlen;
        let mut found: bool = false;
        while !found && i > 0
            invariant
                i <= qlen,
                !found ==> (forall|j: int| i <= j < qlen ==> q[j] != '-'),
                found ==> (i < qlen && q[i as int] == '-' && (forall|j: int|
                    i < j < qlen ==> q[j] != '-')),
            decreases i,
        {
            i = i - 1;
            proof {
                assert(spec_query_char(q[i as int]));
            }
            if qbytes[i] == 45u8 {
                found = true;
            }
        }
        if !found {
            // Without a hyphen no hash can be computed.
            proof {
                assert(!spec_has_hyphen(q));
            }
            return None;
        }
        let hyphen: usize = i;
        proof {
            assert(spec_has_hyphen(q));
            assert(spec_last_hyphen(q) == hyphen as int) by {
                if spec_last_hyphen(q) < hyphen as int {
                    assert(q[hyphen as int] != '-');
                }
                if spec_last_hyphen(q) > hyphen as int {
                    assert(q[spec_last_hyphen(q)] != '-');
                }
            }
        }

        // Fold the trimmed prefix's characters into the 32-bit hash.
        let factor: u32 = self.header.hash_factor;
        let mut hash: u32 = 0;
        proof {
            assert(q.take(0).len() == 0);
        }
        let mut k: usize = 0;
        while k < hyphen
            invariant
                k <= hyphen,
                hash == spec_apiset_hash(q.take(k as int), factor),
            decreases hyphen - k,
        {
            proof {
                assert(q.take(k as int + 1).drop_last() =~= q.take(k as int));
                assert(q.take(k as int + 1).last() == q[k as int]);
                assert(spec_query_char(q[k as int]));
                assert((qbytes@[k as int]) as u32 == q[k as int] as u32);
            }
            hash = hash.wrapping_mul(factor).wrapping_add(qbytes[k] as u32);
            k = k + 1;
        }
        let ghost qh = spec_query_hash(q, spec_hash_factor(s));
        proof {
            assert(hash == qh);
        }

        let hash_entries = match self.hash_entries() {
            Ok(it) => it,
            Err(e) => {
                return Some(Err(e));
            },
        };
        let mut namespace_entries = match self.namespace_entries() {
            Ok(it) => it,
            Err(e) => {
                return Some(Err(e));
            },
        };

        // Binary search in the sorted array of hash entries.
        let total: usize = hash_entries.len();
        let mut left: i64 = 0;
        let mut right: i64 = total as i64 - 1;
        while left <= right
            invariant
                0 <= left,
                right < total as int,
                namespace_entries.spec_section() == s,
                namespace_entries.spec_start() == spec_namespace_entry_offset(s),
                namespace_entries.spec_end() == spec_namespace_entry_offset(s)
                    + NAMESPACE_ENTRY_SIZE * spec_count(s),
                spec_hashes_sorted(s) ==> (forall|t: int|
                    0 <= t < left ==> spec_hash_entry_hash(s, t) != qh),
                spec_hashes_sorted(s) ==> (forall|t: int|
                    right < t < total as int ==> spec_hash_entry_hash(s, t) != qh),
            decreases right - left + 1,
        {
            let mid: i64 = (left + right) / 2;
            proof {
                assert(left <= mid <= right);
                assert(HASH_ENTRY_SIZE as int * (mid as int) + HASH_ENTRY_SIZE as int
                    <= HASH_ENTRY_SIZE as int * (total as int)) by (nonlinear_arith)
                    requires
                        0 <= mid as int,
                        (mid as int) < (total as int),
                ;
            }
            let mut it = hash_entries;
            let entry = match it.nth(mid as usize) {
                Some(e) => e,
                None => {
                    // mid lies inside the validated array
                    proof {
                        assert(false);
                    }
                    return None;
                },
            };
            let eh: u32 = entry.hash();
            if eh == hash {
                // This must be the entry we are looking for; check the name
                // to make absolutely sure.
                let ghost j_spec = choose|j: int|
                    0 <= j < spec_count(s) as int && #[trigger] spec_hash_entry_hash(s, j) == qh;
                proof {
                    assert(spec_hash_entry_hash(s, mid as int) == qh);
                    if spec_hashes_sorted(s) && spec_hash_slot(s, qh) && spec_unique_hash(s, qh) {
                        assert(j_spec == mid as int);
                    }
                }
                let index: u32 = entry.index();
                let ghost idx = index as int;
                let ns_entry = match namespace_entries.nth(index as usize) {
                    Some(e) => e,
                    None => {
                        // The slot's index points past the namespace entry
                        // array: corrupted data, treated as "not found".
                        proof {
                            assert(NAMESPACE_ENTRY_SIZE as int * idx + NAMESPACE_ENTRY_SIZE as int
                                > NAMESPACE_ENTRY_SIZE as int * (spec_count(s) as int)
                                ==> idx >= spec_count(s) as int) by (nonlinear_arith);
                            assert(idx >= spec_count(s) as int);
                        }
                        return None;
                    },
                };
                proof {
                    assert(NAMESPACE_ENTRY_SIZE as int * idx + NAMESPACE_ENTRY_SIZE as int
                        <= NAMESPACE_ENTRY_SIZE as int * (spec_count(s) as int) ==> idx
                        < spec_count(s) as int) by (nonlinear_arith);
                    assert(idx < spec_count(s) as int);
                    assert(ns_entry.is_namespace_entry_at(s, spec_ns_entry_pos(s, idx)));
                }
                let name = match ns_entry.name() {
                    Ok(nm) => nm,
                    Err(e) => {
                        return Some(Err(e));
                    },
                };
                if name.eq_ascii_str(namespace_entry_name) {
                    return Some(Ok(ns_entry));
                } else {
                    return None;
                }
            } else if eh < hash {
                proof {
                    if spec_hashes_sorted(s) {
                        assert forall|t: int|
                            0 <= t < mid as int + 1 implies spec_hash_entry_hash(s, t) != qh by {
                            assert(spec_hash_entry_hash(s, t) <= spec_hash_entry_hash(
                                s,
                                mid as int,
                            ));
                        }
                    }
                }
                left = mid + 1;
            } else {
                proof {
                    if spec_hashes_sorted(s) {
                        assert forall|t: int|
                            mid as int - 1 < t < total as int implies spec_hash_entry_hash(s, t)
                                != qh by {
                            assert(spec_hash_entry_hash(s, mid as int) <= spec_hash_entry_hash(
                                s,
                                t,
                            ));
                        }
                    }
                }
                right = mid - 1;
            }
        }
        // The search narrowed to an empty range: on a sorted table the hash
        // occurs nowhere.
        proof {
            if spec_hashes_sorted(s) && spec_hash_slot(s, qh) {
                let j = choose|j: int|
                    0 <= j < spec_count(s) as int && #[trigger] spec_hash_entry_hash(s, j) == qh;
                assert(spec_hash_entry_hash(s, j) != qh);
                assert(false);
            }
        }
        None
    }

    /// Returns an iterator over the hash entries of this map.
    ///
    /// The validated byte range is recomputed exactly as at decode time, so
    /// the call always succeeds on a decoded map. You usually don't need to
    /// iterate through the hash entries manually; use
    /// [`find_namespace_entry`](Self::find_namespace_entry) instead.
    pub fn hash_entries(&self) -> (r: Result<ApiSetHashEntries<'a>>)
        ensures
            ({
                let s = self.spec_section();
                &&& r matches Ok(it)
                &&& it.spec_section() == s
                &&& it.spec_start() == spec_hash_entry_offset(s)
                &&& it.spec_end() == spec_hash_entry_offset(s) + HASH_ENTRY_SIZE * spec_count(s)
                &&& it.spec_len() == spec_count(s)
            }),
    {
        proof {
            use_type_invariant(self);
        }
        let blen: usize = self.section_bytes.len();
        let start: usize = self.header.hash_entry_offset as usize;
        let count: usize = self.header.count as usize;
        proof {
            assert(HASH_ENTRY_SIZE * count == HASH_ENTRY_SIZE as int * spec_count(
                self.section_bytes@,
            ));
        }
        let end: usize = start + HASH_ENTRY_SIZE * count;
        if end <= blen {
            let it = ApiSetHashEntries::new(self.section_bytes, start..end);
            proof {
                assert((HASH_ENTRY_SIZE * count as int) / HASH_ENTRY_SIZE as int == count as int)
                    by (nonlinear_arith);
            }
            Ok(it)
        } else {
            Err(
                NtApiSetError::HashEntriesOutOfBounds {
                    range_start: start as u64,
                    range_end: end as u64,
                    actual: blen,
                },
            )
        }
    }

    /// Returns an iterator over the namespace entries of this map.
    ///
    /// The validated byte range is recomputed exactly as at decode time, so
    /// the call always succeeds on a decoded map. Alternatively, look up a
    /// specific namespace entry via
    /// [`find_namespace_entry`](Self::find_namespace_entry).
    pub fn namespace_entries(&self) -> (r: Result<ApiSetNamespaceEntries<'a>>)
        ensures
            ({
                let s = self.spec_section();
                &&& r matches Ok(it)
                &&& it.spec_section() == s
                &&& it.spec_start() == spec_namespace_entry_offset(s)
                &&& it.spec_end() == spec_namespace_entry_offset(s) + NAMESPACE_ENTRY_SIZE
                    * spec_count(s)
                &&& it.spec_len() == spec_count(s)
            }),
    {
        proof {
            use_type_invariant(self);
        }
        let blen: usize = self.section_bytes.len();
        let start: usize = self.header.namespace_entry_offset as usize;
        let count: usize = self.header.count as usize;
        proof {
            assert(NAMESPACE_ENTRY_SIZE * count == NAMESPACE_ENTRY_SIZE as int * spec_count(
                self.section_bytes@,
            ));
        }
        let end: usize = start + NAMESPACE_ENTRY_SIZE * count;
        if end <= blen {
            let it = ApiSetNamespaceEntries::new(self.section_bytes, start..end);
            proof {
                assert((NAMESPACE_ENTRY_SIZE * count as int) / NAMESPACE_ENTRY_SIZE as int
                    == count as int) by (nonlinear_arith);
            }
            Ok(it)
        } else {
            Err(
                NtApiSetError::NamespaceEntriesOutOfBounds {
                    range_start: start as u64,
                    range_end: end as u64,
                    actual: blen,
                },
            )
        }
    }
}

} // verus!
