//! A verified decoder for the Windows API Set Map, the binary structure that
//! resolves virtual import names such as `api-ms-win-core-sysinfo-l1-1-0` to
//! the real library implementing them (for example `kernelbase.dll`).
//!
//! The map lives in the `.apiset` section of a PE module, canonically
//! `apisetschema.dll`. Every structure of this crate is a view over that
//! section's bytes; decoding validates every derived offset against the
//! section's length before it is ever read.

mod error;
mod format;
mod hash_entry;
mod map;
mod namespace_entry;
mod u16str;
mod value_entry;

pub use error::NtApiSetError;
pub use error::Result;
pub use format::HASH_ENTRY_SIZE;
pub use format::MAP_HEADER_SIZE;
pub use format::NAMESPACE_ENTRY_SIZE;
pub use format::VALUE_ENTRY_SIZE;
pub use format::APISET_VERSION_WINDOWS_10;
pub use format::le32_at;
pub use format::lemma_find_round_trip;
pub use format::lemma_last_hyphen;
pub use format::spec_apiset_hash;
pub use format::spec_count;
pub use format::spec_has_hyphen;
pub use format::spec_hash_entry_hash;
pub use format::spec_hash_entry_index;
pub use format::spec_hash_entry_offset;
pub use format::spec_hash_factor;
pub use format::spec_hash_slot;
pub use format::spec_hash_step;
pub use format::spec_hashes_sorted;
pub use format::spec_last_hyphen;
pub use format::spec_map_flags;
pub use format::spec_map_size;
pub use format::spec_map_wf;
pub use format::spec_namespace_entry_offset;
pub use format::spec_ns_array_count_at;
pub use format::spec_ns_array_offset_at;
pub use format::spec_ns_entry_pos;
pub use format::spec_ns_flags_at;
pub use format::spec_ns_hashed_length_at;
pub use format::spec_ns_name_length_at;
pub use format::spec_ns_name_offset_at;
pub use format::spec_query_char;
pub use format::spec_query_hash;
pub use format::spec_unique_hash;
pub use format::spec_utf16le_of_ascii;
pub use format::spec_valid_query;
pub use format::spec_value_flags_at;
pub use format::spec_value_name_length_at;
pub use format::spec_value_name_offset_at;
pub use format::spec_value_value_length_at;
pub use format::spec_value_value_offset_at;
pub use format::spec_version;
pub use hash_entry::ApiSetHashEntries;
pub use hash_entry::ApiSetHashEntry;
pub use map::ApiSetMap;
pub use map::ApiSetMapFlags;
pub use namespace_entry::ApiSetNamespaceEntries;
pub use namespace_entry::ApiSetNamespaceEntry;
pub use namespace_entry::ApiSetNamespaceEntryFlags;
pub use u16str::U16StrLe;
pub use value_entry::ApiSetValueEntries;
pub use value_entry::ApiSetValueEntry;
