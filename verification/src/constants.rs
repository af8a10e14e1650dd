use vstd::prelude::*;

verus! {

/// Longest agent domain accepted, in bytes.
pub const MAX_AGENT_DOMAIN_LEN: usize = 128;

/// Longest campaign spec accepted, in bytes.
pub const MAX_CAMPAIGN_SPEC_LEN: usize = 2048;

/// Longest ad metadata accepted, in bytes.
pub const MAX_AD_METADATA_LEN: usize = 2048;

/// Number of slots during which a validation request can be answered.
pub const VALIDATION_EXPIRATION_SLOTS: u64 = 1_000;

/// Seed of feedback authorizations: the ASCII bytes of `feedback`.
pub const FEEDBACK_SEED: [u8; 8] = [0x66, 0x65, 0x65, 0x64, 0x62, 0x61, 0x63, 0x6b];

} // verus!
