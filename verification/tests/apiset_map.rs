//! Tests building API Set Map section buffers byte by byte and exercising
//! decoding, iteration, and the lookup engine.

use nt_apiset::ApiSetMap;
use nt_apiset::ApiSetValueEntries;
use nt_apiset::NtApiSetError;

fn push_u32(v: &mut Vec<u8>, x: u32) {
    v.extend_from_slice(&x.to_le_bytes());
}

fn utf16le(s: &str) -> Vec<u8> {
    let mut out = Vec::new();
    for u in s.encode_utf16() {
        out.extend_from_slice(&u.to_le_bytes());
    }
    out
}

fn decode_utf16le(bytes: &[u8]) -> String {
    let units: Vec<u16> = bytes
        .chunks(2)
        .map(|c| u16::from_le_bytes([c[0], c[1]]))
        .collect();
    String::from_utf16(&units).unwrap()
}

fn prefix_hash(name: &str, factor: u32) -> u32 {
    let prefix = match name.rfind('-') {
        Some(i) => &name[..i],
        None => return 0,
    };
    prefix
        .chars()
        .fold(0u32, |acc, c| acc.wrapping_mul(factor).wrapping_add(c as u32))
}

fn alloc_str(strings: &mut Vec<u8>, strings_base: u32, s: &str) -> (u32, u32) {
    let bytes = utf16le(s);
    let off = strings_base + strings.len() as u32;
    strings.extend_from_slice(&bytes);
    (off, bytes.len() as u32)
}

/// Builds a complete, well-formed section buffer: header, namespace entry
/// array, hash entry array (sorted by hash), value entry arrays, strings.
fn build_map(factor: u32, entries: &[(&str, &[(&str, &str)])]) -> Vec<u8> {
    let n = entries.len() as u32;
    let ns_off = 28u32;
    let hash_off = ns_off + 24 * n;
    let tail_base = hash_off + 8 * n;

    let mut value_array_offsets = Vec::new();
    let mut acc = 0u32;
    for (_, vals) in entries {
        value_array_offsets.push(tail_base + acc);
        acc += 20 * vals.len() as u32;
    }
    let strings_base = tail_base + acc;

    let mut strings: Vec<u8> = Vec::new();
    let mut ns_records: Vec<u8> = Vec::new();
    let mut value_records: Vec<u8> = Vec::new();
    for (i, (name, vals)) in entries.iter().enumerate() {
        let (noff, nlen) = alloc_str(&mut strings, strings_base, name);
        let hashed_len = match name.rfind('-') {
            Some(h) => 2 * h as u32,
            None => nlen,
        };
        push_u32(&mut ns_records, 0);
        push_u32(&mut ns_records, noff);
        push_u32(&mut ns_records, nlen);
        push_u32(&mut ns_records, hashed_len);
        push_u32(&mut ns_records, value_array_offsets[i]);
        push_u32(&mut ns_records, vals.len() as u32);
        for (vname, vvalue) in vals.iter() {
            let (vnoff, vnlen) = alloc_str(&mut strings, strings_base, vname);
            let (vvoff, vvlen) = alloc_str(&mut strings, strings_base, vvalue);
            push_u32(&mut value_records, 0);
            push_u32(&mut value_records, vnoff);
            push_u32(&mut value_records, vnlen);
            push_u32(&mut value_records, vvoff);
            push_u32(&mut value_records, vvlen);
        }
    }

    let mut hashes: Vec<(u32, u32)> = entries
        .iter()
        .enumerate()
        .map(|(i, (name, _))| (prefix_hash(name, factor), i as u32))
        .collect();
    hashes.sort();

    let mut out = Vec::new();
    push_u32(&mut out, 6);
    push_u32(&mut out, 0);
    push_u32(&mut out, 0);
    push_u32(&mut out, n);
    push_u32(&mut out, ns_off);
    push_u32(&mut out, hash_off);
    push_u32(&mut out, factor);
    out.extend_from_slice(&ns_records);
    for (h, i) in hashes {
        push_u32(&mut out, h);
        push_u32(&mut out, i);
    }
    out.extend_from_slice(&value_records);
    out.extend_from_slice(&strings);
    let total = out.len() as u32;
    out[4..8].copy_from_slice(&total.to_le_bytes());
    out
}

fn sample_entries() -> Vec<(&'static str, &'static [(&'static str, &'static str)])> {
    vec![
        (
            "api-ms-win-core-file-l1-1-0",
            &[("", "kernelbase.dll"), ("iertutil.dll", "kernel32.dll")][..],
        ),
        ("api-ms-win-core-sysinfo-l1-1-0", &[("", "kernelbase.dll")][..]),
        ("ext-ms-win-gdi-dc-l1-2-0", &[("", "gdi32full.dll")][..]),
    ]
}

const FACTOR: u32 = 31;

#[test]
fn map_decode_header_too_small() {
    let bytes = vec![0u8; 10];
    let err = ApiSetMap::try_from_apiset_section_bytes(&bytes).unwrap_err();
    assert_eq!(
        err,
        NtApiSetError::InvalidMapHeaderSize { expected: 28, actual: 10 }
    );
}

#[test]
fn map_decode_version_5_rejected() {
    let entries = sample_entries();
    let mut bytes = build_map(FACTOR, &entries);
    bytes[0..4].copy_from_slice(&5u32.to_le_bytes());
    let err = ApiSetMap::try_from_apiset_section_bytes(&bytes).unwrap_err();
    assert_eq!(err, NtApiSetError::UnsupportedVersion { version: 5 });
}

#[test]
fn map_decode_namespace_array_out_of_bounds() {
    let entries = sample_entries();
    let mut bytes = build_map(FACTOR, &entries);
    let len = bytes.len() as u32;
    // place the namespace entry array so that it sticks out of the buffer
    let bad_off = len - 10;
    bytes[16..20].copy_from_slice(&bad_off.to_le_bytes());
    let err = ApiSetMap::try_from_apiset_section_bytes(&bytes).unwrap_err();
    assert_eq!(
        err,
        NtApiSetError::NamespaceEntriesOutOfBounds {
            range_start: bad_off as u64,
            range_end: bad_off as u64 + 24 * 3,
            actual: len as usize,
        }
    );
}

#[test]
fn map_decode_hash_array_out_of_bounds() {
    let entries = sample_entries();
    let mut bytes = build_map(FACTOR, &entries);
    let len = bytes.len() as u32;
    let bad_off = len - 3;
    bytes[20..24].copy_from_slice(&bad_off.to_le_bytes());
    let err = ApiSetMap::try_from_apiset_section_bytes(&bytes).unwrap_err();
    assert_eq!(
        err,
        NtApiSetError::HashEntriesOutOfBounds {
            range_start: bad_off as u64,
            range_end: bad_off as u64 + 8 * 3,
            actual: len as usize,
        }
    );
}

#[test]
fn map_decode_overflowing_count_rejected() {
    let entries = sample_entries();
    let mut bytes = build_map(FACTOR, &entries);
    // a count so large that count * record_size wraps 32-bit arithmetic
    bytes[12..16].copy_from_slice(&0xffff_ffffu32.to_le_bytes());
    let err = ApiSetMap::try_from_apiset_section_bytes(&bytes).unwrap_err();
    // the hash entry array starts at 28 + 3 * 24 = 100
    assert_eq!(
        err,
        NtApiSetError::HashEntriesOutOfBounds {
            range_start: 100,
            range_end: 100 + 8 * 0xffff_ffffu64,
            actual: bytes.len(),
        }
    );
}

#[test]
fn namespace_entries_len_and_order() {
    let entries = sample_entries();
    let bytes = build_map(FACTOR, &entries);
    let map = ApiSetMap::try_from_apiset_section_bytes(&bytes).unwrap();
    let mut it = map.namespace_entries().unwrap();
    assert_eq!(it.len(), 3);
    let mut names = Vec::new();
    while let Some(entry) = it.next() {
        names.push(decode_utf16le(entry.name().unwrap().bytes()));
    }
    assert_eq!(
        names,
        vec![
            "api-ms-win-core-file-l1-1-0",
            "api-ms-win-core-sysinfo-l1-1-0",
            "ext-ms-win-gdi-dc-l1-2-0",
        ]
    );
    // produced in the sorted-by-name order the format claims
    let mut sorted = names.clone();
    sorted.sort_by_key(|n| n.to_ascii_lowercase());
    assert_eq!(names, sorted);
    assert_eq!(it.len(), 0);
}

#[test]
fn hash_entries_len_and_sorted() {
    let entries = sample_entries();
    let bytes = build_map(FACTOR, &entries);
    let map = ApiSetMap::try_from_apiset_section_bytes(&bytes).unwrap();
    let mut it = map.hash_entries().unwrap();
    assert_eq!(it.len(), 3);
    let mut hashes = Vec::new();
    while let Some(entry) = it.next() {
        assert!((entry.index() as usize) < 3);
        hashes.push(entry.hash());
    }
    assert_eq!(hashes.len(), 3);
    for w in hashes.windows(2) {
        assert!(w[0] <= w[1]);
    }
}

#[test]
fn find_round_trip_all_entries() {
    let entries = sample_entries();
    let bytes = build_map(FACTOR, &entries);
    let map = ApiSetMap::try_from_apiset_section_bytes(&bytes).unwrap();
    for (name, _) in &entries {
        let found = map
            .find_namespace_entry(name)
            .expect("entry must be found")
            .expect("lookup must not error");
        let found_name = decode_utf16le(found.name().unwrap().bytes());
        assert_eq!(&found_name, name);
    }
}

#[test]
fn find_negative_lookup() {
    let entries = sample_entries();
    let bytes = build_map(FACTOR, &entries);
    let map = ApiSetMap::try_from_apiset_section_bytes(&bytes).unwrap();
    assert!(map.find_namespace_entry("does-not-exist-zz").is_none());
}

#[test]
fn find_name_without_hyphen_is_none() {
    let entries = sample_entries();
    let bytes = build_map(FACTOR, &entries);
    let map = ApiSetMap::try_from_apiset_section_bytes(&bytes).unwrap();
    assert!(map.find_namespace_entry("nohyphen").is_none());
}

#[test]
fn truncation_never_panics() {
    let entries = sample_entries();
    let bytes = build_map(FACTOR, &entries);
    for cut in 0..bytes.len() {
        match ApiSetMap::try_from_apiset_section_bytes(&bytes[..cut]) {
            Err(_) => {}
            Ok(map) => {
                // every reachable read stays in bounds or yields a typed error
                map.flags();
                let mut hashes = map.hash_entries().unwrap();
                while let Some(h) = hashes.next() {
                    let _ = h.hash();
                    let _ = h.index();
                }
                let mut spaces = map.namespace_entries().unwrap();
                while let Some(ns) = spaces.next() {
                    ns.flags();
                    let _ = ns.name();
                    if let Ok(mut vals) = ns.value_entries() {
                        while let Some(v) = vals.next() {
                            let _ = v.flags();
                            let _ = v.name();
                            let _ = v.value();
                        }
                    }
                }
                let _ = map.find_namespace_entry("api-ms-win-core-sysinfo-l1-1-0");
            }
        }
    }
}

#[test]
fn value_array_overflow_guard() {
    let entries = sample_entries();
    let mut bytes = build_map(FACTOR, &entries);
    // first namespace entry record starts at 28; array_count is its sixth field
    let array_offset = u32::from_le_bytes(bytes[44..48].try_into().unwrap());
    bytes[48..52].copy_from_slice(&0xffff_ffffu32.to_le_bytes());
    let map = ApiSetMap::try_from_apiset_section_bytes(&bytes).unwrap();
    let mut it = map.namespace_entries().unwrap();
    let first = it.next().unwrap();
    let err = first.value_entries().unwrap_err();
    assert_eq!(
        err,
        NtApiSetError::ValueEntriesOutOfBounds {
            range_start: array_offset as u64,
            range_end: array_offset as u64 + 20 * 0xffff_ffffu64,
            actual: bytes.len(),
        }
    );
}

#[test]
fn first_value_entry_name_empty() {
    let entries = sample_entries();
    let bytes = build_map(FACTOR, &entries);
    let map = ApiSetMap::try_from_apiset_section_bytes(&bytes).unwrap();
    let mut spaces = map.namespace_entries().unwrap();
    while let Some(ns) = spaces.next() {
        let mut vals = ns.value_entries().unwrap();
        if vals.len() > 0 {
            let first = vals.next().unwrap();
            assert!(first.name().unwrap().is_empty());
        }
    }
}

#[test]
fn concrete_sysinfo_scenario() {
    let entries = vec![(
        "api-ms-win-core-sysinfo-l1-1-0",
        &[("", "kernelbase.dll")][..],
    )];
    let factor = 127u32;
    let bytes = build_map(factor, &entries);
    // one hash entry {hash: H, index: 0}, H the hash of the prefix before
    // the last hyphen
    let h = prefix_hash("api-ms-win-core-sysinfo-l1-1-0", factor);
    assert_eq!(
        h,
        "api-ms-win-core-sysinfo-l1-1"
            .chars()
            .fold(0u32, |acc, c| acc.wrapping_mul(factor).wrapping_add(c as u32))
    );
    let map = ApiSetMap::try_from_apiset_section_bytes(&bytes).unwrap();
    let mut hashes = map.hash_entries().unwrap();
    let slot = hashes.next().unwrap();
    assert_eq!(slot.hash(), h);
    assert_eq!(slot.index(), 0);

    let found = map
        .find_namespace_entry("api-ms-win-core-sysinfo-l1-1-0")
        .unwrap()
        .unwrap();
    let name = decode_utf16le(found.name().unwrap().bytes());
    assert_eq!(name, "api-ms-win-core-sysinfo-l1-1-0");
    let mut vals = found.value_entries().unwrap();
    let first = vals.next().unwrap();
    assert!(first.name().unwrap().is_empty());
    let value = first.value().unwrap();
    assert!(value.eq_ascii_str("kernelbase.dll"));
    assert_eq!(decode_utf16le(value.bytes()), "kernelbase.dll");
}

#[test]
fn hash_collision_resolved_by_name_compare() {
    // with factor 0 the prefix hash degenerates to the prefix's last
    // character, so these two names collide
    let entries = vec![
        ("api-aa-1", &[("", "one.dll")][..]),
        ("api-ba-1", &[("", "two.dll")][..]),
    ];
    let bytes = build_map(0, &entries);
    let map = ApiSetMap::try_from_apiset_section_bytes(&bytes).unwrap();
    // the search lands on the first colliding slot and only that candidate's
    // name is inspected, mirroring the loader
    let found = map.find_namespace_entry("api-aa-1").unwrap().unwrap();
    assert_eq!(decode_utf16le(found.name().unwrap().bytes()), "api-aa-1");
    assert!(map.find_namespace_entry("api-ba-1").is_none());
}

#[test]
fn entry_name_out_of_bounds_error() {
    let entries = sample_entries();
    let mut bytes = build_map(FACTOR, &entries);
    let len = bytes.len();
    // corrupt the first namespace entry's name offset (second field at 32)
    bytes[32..36].copy_from_slice(&(len as u32).to_le_bytes());
    let name_length = u32::from_le_bytes(bytes[36..40].try_into().unwrap());
    let map = ApiSetMap::try_from_apiset_section_bytes(&bytes).unwrap();
    let mut it = map.namespace_entries().unwrap();
    let first = it.next().unwrap();
    let err = first.name().unwrap_err();
    assert_eq!(
        err,
        NtApiSetError::EntryNameOutOfBounds {
            name_range_start: len as u64,
            name_range_end: len as u64 + name_length as u64,
            entry_offset: 28,
            actual: len,
        }
    );
}

#[test]
fn find_propagates_name_error() {
    let entries = sample_entries();
    let mut bytes = build_map(FACTOR, &entries);
    let len = bytes.len();
    // corrupt the name offset of the entry that "api-ms-win-core-file-l1-1-0"
    // resolves to, so the lookup's name check fails hard
    bytes[32..36].copy_from_slice(&(len as u32).to_le_bytes());
    let map = ApiSetMap::try_from_apiset_section_bytes(&bytes).unwrap();
    let result = map
        .find_namespace_entry("api-ms-win-core-file-l1-1-0")
        .expect("the hash still matches, so the candidate is inspected");
    let err = result.unwrap_err();
    assert!(matches!(err, NtApiSetError::EntryNameOutOfBounds { .. }));
}

#[test]
fn find_out_of_range_index_is_none() {
    let entries = sample_entries();
    let mut bytes = build_map(FACTOR, &entries);
    // hash entries start at 28 + 3*24 = 100; break every slot's index
    for slot in 0..3usize {
        let at = 100 + slot * 8 + 4;
        bytes[at..at + 4].copy_from_slice(&100u32.to_le_bytes());
    }
    let map = ApiSetMap::try_from_apiset_section_bytes(&bytes).unwrap();
    assert!(map
        .find_namespace_entry("api-ms-win-core-sysinfo-l1-1-0")
        .is_none());
}

#[test]
fn map_flags_truncate_unknown_bits() {
    let entries = sample_entries();
    let mut bytes = build_map(FACTOR, &entries);
    bytes[8..12].copy_from_slice(&0xffff_ffffu32.to_le_bytes());
    let map = ApiSetMap::try_from_apiset_section_bytes(&bytes).unwrap();
    let flags = map.flags();
    assert_eq!(flags.bits(), 3);
    assert!(flags.sealed());
    assert!(flags.is_extension());
}

#[test]
fn namespace_entry_flags_bits() {
    let entries = sample_entries();
    let mut bytes = build_map(FACTOR, &entries);
    // first namespace entry's flags field sits at 28
    bytes[28..32].copy_from_slice(&0x5u32.to_le_bytes());
    let map = ApiSetMap::try_from_apiset_section_bytes(&bytes).unwrap();
    let mut it = map.namespace_entries().unwrap();
    let first = it.next().unwrap();
    let flags = first.flags();
    assert_eq!(flags.bits(), 1);
    assert!(flags.sealed());
    assert!(!flags.is_extension());
}

#[test]
fn hash_entries_nth_skips() {
    let entries = sample_entries();
    let bytes = build_map(FACTOR, &entries);
    let map = ApiSetMap::try_from_apiset_section_bytes(&bytes).unwrap();
    let all = {
        let mut v = Vec::new();
        let mut it = map.hash_entries().unwrap();
        while let Some(e) = it.next() {
            v.push((e.hash(), e.index()));
        }
        v
    };
    let mut it = map.hash_entries().unwrap();
    let second = it.nth(1).unwrap();
    assert_eq!((second.hash(), second.index()), all[1]);
    let third = it.next().unwrap();
    assert_eq!((third.hash(), third.index()), all[2]);
    assert!(it.next().is_none());
    let mut it2 = map.hash_entries().unwrap();
    assert!(it2.nth(3).is_none());
    let mut it3 = map.hash_entries().unwrap();
    assert!(it3.nth(usize::MAX).is_none());
}

#[test]
fn hash_formula_exact_value() {
    // independently computed: folding "api-ms-win-core-sysinfo-l1-1" with
    // factor 31 gives 0x46cafe64, with factor 127 gives 0x4442baa4
    assert_eq!(prefix_hash("api-ms-win-core-sysinfo-l1-1-0", 31), 0x46ca_fe64);
    assert_eq!(prefix_hash("api-ms-win-core-sysinfo-l1-1-0", 127), 0x4442_baa4);
    let entries = vec![("api-ms-win-core-sysinfo-l1-1-0", &[][..])];
    let bytes = build_map(31, &entries);
    let map = ApiSetMap::try_from_apiset_section_bytes(&bytes).unwrap();
    let slot = map.hash_entries().unwrap().next().unwrap();
    assert_eq!(slot.hash(), 0x46ca_fe64);
}

#[test]
fn utf16_high_byte_blocks_ascii_equality() {
    // 0x0161 is no ASCII 'a' even though its low byte matches
    let bytes = [97u8, 1u8];
    let s = nt_apiset::U16StrLe(&bytes);
    assert!(!s.eq_ascii_str("a"));
    let ascii = [97u8, 0u8];
    let t = nt_apiset::U16StrLe(&ascii);
    assert!(t.eq_ascii_str("a"));
}

#[test]
fn value_entries_iterator_standalone() {
    // a lone value entry record viewed through a caller-validated range
    let mut bytes = Vec::new();
    push_u32(&mut bytes, 7);
    push_u32(&mut bytes, 20);
    push_u32(&mut bytes, 0);
    push_u32(&mut bytes, 20);
    push_u32(&mut bytes, 4);
    let name = utf16le("ab");
    bytes.extend_from_slice(&name);
    let mut it = ApiSetValueEntries::new(&bytes, 0..20);
    assert_eq!(it.len(), 1);
    let entry = it.next().unwrap();
    assert_eq!(entry.flags(), 7);
    assert!(entry.name().unwrap().is_empty());
    let value = entry.value().unwrap();
    assert_eq!(value.len(), 4);
    assert!(!value.is_empty());
    assert!(value.eq_ascii_str("ab"));
    assert!(!value.eq_ascii_str("ba"));
    assert!(!value.eq_ascii_str("abc"));
    assert_eq!(value.bytes(), &name[..]);
    assert!(it.next().is_none());
    assert_eq!(it.len(), 0);
}
