use vstd::prelude::*;

verus! {

/// Fixed storage budget of every persisted record, in bytes, as reserved by
/// the storage collaborator when it allocates a record.
pub const RECORD_SPACE: usize = 180;

/// Serialized bytes of a proposal record besides the description text:
/// 8 (record discriminator) + 1 (`id`) + 4 (text length prefix)
/// + 3 * 16 (the three 128-bit counters) + 32 (`owner`).
pub const PROPOSAL_FIXED_BYTES: usize = 93;

/// The longest description, in encoded bytes, that fits the record budget.
pub const MAX_DESC_BYTES: usize = RECORD_SPACE - PROPOSAL_FIXED_BYTES;

/// Serialized bytes of one registry entry:
/// 1 (`id`) + 32 (`pubkey`) + 1 (`proposal_id`) + 1 (`voted`).
pub const VOTER_ENTRY_BYTES: usize = 35;

/// Serialized bytes of a registry record besides its entries:
/// 8 (record discriminator) + 4 (entry count prefix).
pub const VOTERS_FIXED_BYTES: usize = 12;

/// The most registry entries that fit the record budget.
pub const MAX_VOTERS: usize = (RECORD_SPACE - VOTERS_FIXED_BYTES) / VOTER_ENTRY_BYTES;

} // verus!
