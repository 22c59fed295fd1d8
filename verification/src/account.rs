//! The record types the engine stores, and their per-record invariants.
//!
//! Each record is addressed by a deterministic key derived from its
//! identifying fields (an identifier string, or a pair of them), so two
//! distinct logical records can never collide. The keyed store in
//! [`crate::state`] enforces that uniqueness explicitly.

use vstd::prelude::*;
use vstd::utf8::encode_utf8;

verus! {

/// An opaque account address on the host ledger.
///
/// The engine never looks inside an address; it only compares addresses for
/// equality when checking that a caller is the stored authority or creator,
/// so a fixed-width token stands for the host's 32-byte key.
#[derive(Clone, Copy, PartialEq, Eq, Structural, Debug)]
pub struct Address {
    pub id: u64,
}

/// Minimum module price, in lamports (anti-dust floor).
pub const MIN_PRICE_LAMPORTS: u64 = 1_000_000;

/// Upper bound on the platform and referral fees, in basis points (10%).
pub const MAX_FEE_BPS: u16 = 1000;

/// Upper bound on a module's royalty split, in basis points (100%).
pub const MAX_ROYALTY_BPS: u16 = 10000;

/// Longest accepted agent or module identifier, in bytes.
pub const MAX_ID_BYTES: usize = 64;

/// Longest accepted content reference, in bytes.
pub const MAX_IPFS_HASH_BYTES: usize = 128;

/// Longest accepted decision or outcome payload, in bytes.
pub const MAX_PAYLOAD_BYTES: usize = 256;

/// The UTF-8 byte length of a string, which is what the length limits above
/// are measured in.
pub open spec fn byte_len(s: Seq<char>) -> int {
    encode_utf8(s).len() as int
}

/// Process-wide fee parameters and the treasury address; a singleton created
/// once by the controlling authority.
#[derive(Clone, Copy, PartialEq, Eq, Structural, Debug)]
pub struct PlatformConfig {
    pub authority: Address,
    pub treasury: Address,
    pub platform_fee_bps: u16,
    pub referral_fee_bps: u16,
}

/// Both fees stay within the 10% ceiling enforced at creation.
pub open spec fn config_wf(c: PlatformConfig) -> bool {
    &&& c.platform_fee_bps <= MAX_FEE_BPS
    &&& c.referral_fee_bps <= MAX_FEE_BPS
}

/// One record per agent identity, keyed by the identifier string.
pub struct AgentAccount {
    pub agent_id: String,
    pub authority: Address,
    pub reputation: u64,
    pub total_logs: u64,
    pub total_attestations: u64,
}

/// The identifier fits the limit, and the reputation never exceeds
/// `i64::MAX`: it starts at zero and each attestation clamps it to a value
/// that fit in an `i64`, so the signed reputation arithmetic is exact.
pub open spec fn agent_wf(a: AgentAccount) -> bool {
    &&& byte_len(a.agent_id@) <= MAX_ID_BYTES
    &&& a.reputation <= i64::MAX
}

/// An append-only decision record, keyed by (owning agent, creation time).
///
/// `is_attested` starts false and transitions to true exactly once; the
/// record is otherwise immutable.
pub struct MemoryLog {
    pub agent_id: String,
    pub input_hash: [u8; 32],
    pub logic_hash: [u8; 32],
    pub merkle_root: [u8; 32],
    pub timestamp: i64,
    pub is_attested: bool,
}

/// The one-shot outcome record of a decision log, keyed by the log's own key
/// so at most one can ever exist per log.
pub struct Attestation {
    pub agent_id: String,
    pub logged_at: i64,
    pub outcome_hash: [u8; 32],
    pub success: bool,
    pub score_delta: i64,
    pub timestamp: i64,
}

/// One record per published module, keyed by the module identifier string.
pub struct ModuleMetadata {
    pub module_id: String,
    pub creator: Address,
    pub price_lamports: u64,
    pub royalty_bps: u16,
    pub total_sales: u64,
    pub total_revenue: u64,
    pub ipfs_hash: String,
    pub is_active: bool,
}

/// Field bounds enforced at registration and on every repricing.
pub open spec fn module_wf(m: ModuleMetadata) -> bool {
    &&& byte_len(m.module_id@) <= MAX_ID_BYTES
    &&& byte_len(m.ipfs_hash@) <= MAX_IPFS_HASH_BYTES
    &&& m.royalty_bps <= MAX_ROYALTY_BPS
    &&& m.price_lamports >= MIN_PRICE_LAMPORTS
}

/// Proof of purchase, keyed by (purchasing agent, module): at most one per
/// pair, so a re-purchase collides and is rejected.
pub struct ModulePurchase {
    pub agent_id: String,
    pub module_id: String,
    pub purchased_at: i64,
    pub price_paid: u64,
}

} // verus!
