//! The mathematical model of the API Set Map binary format.
//!
//! All multi-byte integers in the format are little-endian, and all offsets
//! are byte offsets relative to the start of the section buffer. The spec
//! functions here define what each header and record field means as a
//! function of the section buffer's byte sequence; the rest of the crate
//! states its contracts in terms of them.

use vstd::prelude::*;

verus! {

/// Size in bytes of the fixed map header.
pub const MAP_HEADER_SIZE: usize = 28;

/// Size in bytes of one hash entry record.
pub const HASH_ENTRY_SIZE: usize = 8;

/// Size in bytes of one namespace entry record.
pub const NAMESPACE_ENTRY_SIZE: usize = 24;

/// Size in bytes of one value entry record.
pub const VALUE_ENTRY_SIZE: usize = 20;

/// The single supported map version (the Windows 10 generation layout).
pub const APISET_VERSION_WINDOWS_10: u32 = 6;

/// The little-endian 32-bit integer stored at byte offset `i` of `s`.
pub open spec fn le32_at(s: Seq<u8>, i: int) -> u32
    recommends
        0 <= i,
        i + 4 <= s.len(),
{
    (s[i] as int + s[i + 1] as int * 0x100 + s[i + 2] as int * 0x10000 + s[i + 3] as int
        * 0x1000000) as u32
}

/// Reads the little-endian 32-bit integer at byte offset `offset` of `buf`.
pub fn read_u32_le(buf: &[u8], offset: usize) -> (r: u32)
    requires
        offset + 4 <= buf@.len(),
    ensures
        r == le32_at(buf@, offset as int),
{
    let b0: u32 = buf[offset] as u32;
    let b1: u32 = buf[offset + 1] as u32;
    let b2: u32 = buf[offset + 2] as u32;
    let b3: u32 = buf[offset + 3] as u32;
    b0 + b1 * 0x100 + b2 * 0x10000 + b3 * 0x1000000
}

/// The map header's `version` field.
pub open spec fn spec_version(s: Seq<u8>) -> u32 {
    le32_at(s, 0)
}

/// The map header's `size` field.
pub open spec fn spec_map_size(s: Seq<u8>) -> u32 {
    le32_at(s, 4)
}

/// The map header's raw `flags` field.
pub open spec fn spec_map_flags(s: Seq<u8>) -> u32 {
    le32_at(s, 8)
}

/// The map header's `count` field: the number of namespace entries, which is
/// also the number of hash entries.
pub open spec fn spec_count(s: Seq<u8>) -> u32 {
    le32_at(s, 12)
}

/// The map header's `namespace_entry_offset` field.
pub open spec fn spec_namespace_entry_offset(s: Seq<u8>) -> u32 {
    le32_at(s, 16)
}

/// The map header's `hash_entry_offset` field.
pub open spec fn spec_hash_entry_offset(s: Seq<u8>) -> u32 {
    le32_at(s, 20)
}

/// The map header's `hash_factor` field: the multiplier of the hash function.
pub open spec fn spec_hash_factor(s: Seq<u8>) -> u32 {
    le32_at(s, 24)
}

/// A well-formed section buffer: large enough for the header, of the
/// supported version, and with both the hash entry array and the namespace
/// entry array lying entirely within the buffer.
pub open spec fn spec_map_wf(s: Seq<u8>) -> bool {
    &&& s.len() >= MAP_HEADER_SIZE
    &&& spec_version(s) == APISET_VERSION_WINDOWS_10
    &&& spec_hash_entry_offset(s) + HASH_ENTRY_SIZE * spec_count(s) <= s.len()
    &&& spec_namespace_entry_offset(s) + NAMESPACE_ENTRY_SIZE * spec_count(s) <= s.len()
}

/// The `hash` field of the `i`-th hash entry.
pub open spec fn spec_hash_entry_hash(s: Seq<u8>, i: int) -> u32 {
    le32_at(s, spec_hash_entry_offset(s) + HASH_ENTRY_SIZE * i)
}

/// The `index` field of the `i`-th hash entry.
pub open spec fn spec_hash_entry_index(s: Seq<u8>, i: int) -> u32 {
    le32_at(s, spec_hash_entry_offset(s) + HASH_ENTRY_SIZE * i + 4)
}

/// The hash entry array is sorted ascending by hash, as the format claims.
/// The binary search of the lookup engine is complete only on buffers with
/// this property; it is a claim about the data, not guaranteed by decoding.
pub open spec fn spec_hashes_sorted(s: Seq<u8>) -> bool {
    forall|i: int, j: int|
        0 <= i <= j < spec_count(s) ==> spec_hash_entry_hash(s, i) <= spec_hash_entry_hash(s, j)
}

/// Some hash entry of `s` carries hash value `h`.
pub open spec fn spec_hash_slot(s: Seq<u8>, h: u32) -> bool {
    exists|j: int| 0 <= j < spec_count(s) && spec_hash_entry_hash(s, j) == h
}

/// At most one hash entry of `s` carries hash value `h`.
pub open spec fn spec_unique_hash(s: Seq<u8>, h: u32) -> bool {
    forall|i: int, j: int|
        (0 <= i < spec_count(s) && 0 <= j < spec_count(s) && spec_hash_entry_hash(s, i) == h
            && spec_hash_entry_hash(s, j) == h) ==> i == j
}

/// Byte offset of the `i`-th namespace entry record.
pub open spec fn spec_ns_entry_pos(s: Seq<u8>, i: int) -> int {
    spec_namespace_entry_offset(s) + NAMESPACE_ENTRY_SIZE * i
}

/// The `flags` field of the namespace entry record at byte offset `pos`.
pub open spec fn spec_ns_flags_at(s: Seq<u8>, pos: int) -> u32 {
    le32_at(s, pos)
}

/// The `name_offset` field of the namespace entry record at byte offset `pos`.
pub open spec fn spec_ns_name_offset_at(s: Seq<u8>, pos: int) -> u32 {
    le32_at(s, pos + 4)
}

/// The `name_length` field of the namespace entry record at byte offset `pos`.
pub open spec fn spec_ns_name_length_at(s: Seq<u8>, pos: int) -> u32 {
    le32_at(s, pos + 8)
}

/// The `hashed_length` field of the namespace entry record at byte offset `pos`.
pub open spec fn spec_ns_hashed_length_at(s: Seq<u8>, pos: int) -> u32 {
    le32_at(s, pos + 12)
}

/// The `array_offset` field of the namespace entry record at byte offset `pos`.
pub open spec fn spec_ns_array_offset_at(s: Seq<u8>, pos: int) -> u32 {
    le32_at(s, pos + 16)
}

/// The `array_count` field of the namespace entry record at byte offset `pos`.
pub open spec fn spec_ns_array_count_at(s: Seq<u8>, pos: int) -> u32 {
    le32_at(s, pos + 20)
}

/// The `flags` field of the value entry record at byte offset `pos`.
pub open spec fn spec_value_flags_at(s: Seq<u8>, pos: int) -> u32 {
    le32_at(s, pos)
}

/// The `name_offset` field of the value entry record at byte offset `pos`.
pub open spec fn spec_value_name_offset_at(s: Seq<u8>, pos: int) -> u32 {
    le32_at(s, pos + 4)
}

/// The `name_length` field of the value entry record at byte offset `pos`.
pub open spec fn spec_value_name_length_at(s: Seq<u8>, pos: int) -> u32 {
    le32_at(s, pos + 8)
}

/// The `value_offset` field of the value entry record at byte offset `pos`.
pub open spec fn spec_value_value_offset_at(s: Seq<u8>, pos: int) -> u32 {
    le32_at(s, pos + 12)
}

/// The `value_length` field of the value entry record at byte offset `pos`.
pub open spec fn spec_value_value_length_at(s: Seq<u8>, pos: int) -> u32 {
    le32_at(s, pos + 16)
}

/// One step of the loader's hash fold: `acc * factor + c` in wrapping 32-bit
/// arithmetic.
pub open spec fn spec_hash_step(acc: u32, factor: u32, c: u32) -> u32 {
    acc.wrapping_mul(factor).wrapping_add(c)
}

/// The loader's hash of a character sequence: a left fold of
/// [`spec_hash_step`] over the characters' scalar values, starting at 0.
pub open spec fn spec_apiset_hash(chars: Seq<char>, factor: u32) -> u32
    decreases chars.len(),
{
    if chars.len() == 0 {
        0
    } else {
        spec_hash_step(spec_apiset_hash(chars.drop_last(), factor), factor, chars.last() as u32)
    }
}

/// Whether `q` contains a hyphen.
pub open spec fn spec_has_hyphen(q: Seq<char>) -> bool {
    exists|i: int| 0 <= i < q.len() && q[i] == '-'
}

/// The index of the last hyphen of `q`, or `-1` if there is none.
pub open spec fn spec_last_hyphen(q: Seq<char>) -> int
    decreases q.len(),
{
    if q.len() == 0 {
        -1
    } else if q.last() == '-' {
        q.len() - 1
    } else {
        spec_last_hyphen(q.drop_last())
    }
}

/// A character permitted in a lookup query: a lowercase ASCII letter, a
/// digit, or a hyphen.
pub open spec fn spec_query_char(c: char) -> bool {
    ('a' <= c && c <= 'z') || ('0' <= c && c <= '9') || c == '-'
}

/// A valid lookup query: non-empty and made of permitted characters only.
pub open spec fn spec_valid_query(q: Seq<char>) -> bool {
    &&& q.len() > 0
    &&& forall|i: int| 0 <= i < q.len() ==> spec_query_char(#[trigger] q[i])
}

/// The hash the loader computes for query `q`: the hash of the prefix before
/// the last hyphen (the version suffix from that hyphen on is discarded).
pub open spec fn spec_query_hash(q: Seq<char>, factor: u32) -> u32 {
    spec_apiset_hash(q.take(spec_last_hyphen(q)), factor)
}

/// `bytes` is exactly the UTF-16LE encoding of the ASCII character sequence
/// `q`: twice as long, with each character's code in the even byte and a zero
/// in the odd byte.
pub open spec fn spec_utf16le_of_ascii(bytes: Seq<u8>, q: Seq<char>) -> bool {
    &&& bytes.len() == 2 * q.len()
    &&& forall|k: int| #![trigger q[k]]
        0 <= k < q.len() ==> bytes[2 * k] == q[k] as u8 && bytes[2 * k + 1] == 0
}

/// The round-trip law of the lookup engine: on a buffer whose hash table is
/// sorted, where hash slot `j` is the only slot carrying the query's hash
/// and points at namespace entry `i`, and entry `i`'s name spells exactly
/// the query, the conditional outcome that
/// [`find_namespace_entry`](crate::ApiSetMap::find_namespace_entry) ensures
/// resolves to "found entry `i`": the slot the search lands on is `j`, and
/// the name comparison at entry `i` succeeds. Together with that function's
/// contract, looking an entry's own valid name up returns exactly that
/// entry.
pub proof fn lemma_find_round_trip(s: Seq<u8>, q: Seq<char>, i: int, j: int)
    requires
        spec_valid_query(q),
        spec_has_hyphen(q),
        spec_hashes_sorted(s),
        0 <= j < spec_count(s),
        spec_hash_entry_hash(s, j) == spec_query_hash(q, spec_hash_factor(s)),
        spec_unique_hash(s, spec_query_hash(q, spec_hash_factor(s))),
        spec_hash_entry_index(s, j) == i,
        0 <= i < spec_count(s),
        spec_ns_name_offset_at(s, spec_ns_entry_pos(s, i)) + spec_ns_name_length_at(
            s,
            spec_ns_entry_pos(s, i),
        ) <= s.len(),
        spec_utf16le_of_ascii(
            s.subrange(
                spec_ns_name_offset_at(s, spec_ns_entry_pos(s, i)) as int,
                spec_ns_name_offset_at(s, spec_ns_entry_pos(s, i))
                    + spec_ns_name_length_at(s, spec_ns_entry_pos(s, i)),
            ),
            q,
        ),
    ensures
        spec_hash_slot(s, spec_query_hash(q, spec_hash_factor(s))),
        ({
            let qh = spec_query_hash(q, spec_hash_factor(s));
            let jc = choose|t: int|
                0 <= t < spec_count(s) as int && #[trigger] spec_hash_entry_hash(s, t) == qh;
            &&& jc == j
            &&& spec_hash_entry_index(s, jc) == i
            &&& spec_hash_entry_index(s, jc) < spec_count(s)
        }),
{
    let qh = spec_query_hash(q, spec_hash_factor(s));
    assert(spec_hash_slot(s, qh));
    let jc = choose|t: int|
        0 <= t < spec_count(s) as int && #[trigger] spec_hash_entry_hash(s, t) == qh;
    assert(jc == j);
}

/// Where the last hyphen sits: `spec_last_hyphen` names the last hyphen of
/// `q` when there is one, and is `-1` exactly when there is none.
pub proof fn lemma_last_hyphen(q: Seq<char>)
    ensures
        spec_has_hyphen(q) <==> 0 <= spec_last_hyphen(q),
        -1 <= spec_last_hyphen(q) < q.len(),
        0 <= spec_last_hyphen(q) ==> q[spec_last_hyphen(q)] == '-',
        forall|j: int| spec_last_hyphen(q) < j < q.len() ==> q[j] != '-',
    decreases q.len(),
{
    if q.len() == 0 {
        assert(!spec_has_hyphen(q));
    } else if q.last() == '-' {
        assert(q[q.len() - 1] == '-');
    } else {
        lemma_last_hyphen(q.drop_last());
        assert forall|j: int| spec_last_hyphen(q) < j < q.len() implies q[j] != '-' by {
            if j < q.len() - 1 {
                assert(q.drop_last()[j] == q[j]);
            } else {
                assert(q[j] == q.last());
            }
        }
        if spec_has_hyphen(q) {
            let w = choose|i: int| 0 <= i < q.len() && q[i] == '-';
            assert(w < q.len() - 1);
            assert(q.drop_last()[w] == '-');
            assert(spec_has_hyphen(q.drop_last()));
        }
        if 0 <= spec_last_hyphen(q) {
            assert(q.drop_last()[spec_last_hyphen(q)] == q[spec_last_hyphen(q)]);
        }
    }
}

} // verus!
