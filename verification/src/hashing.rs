//! The fixed, collision-resistant hash behind the audit trail.
//!
//! A decision is committed to the record as `input_hash = H(input)`,
//! `logic_hash = H(logic)` and `merkle_root = H(input_hash ‖ logic_hash)`,
//! so the permanent record binds both payloads without storing them.

use vstd::prelude::*;

verus! {

use vstd::string::StringSliceAdditionalSpecFns;

/// The Keccak-256 digest of a byte sequence. The digest is a pure function
/// of the input bytes alone; it is given no definition here, so nothing can
/// be concluded about its value on given bytes except through [`keccak256`].
pub uninterp spec fn keccak_of(data: Seq<u8>) -> Seq<u8>;

/// Relies on `anchor_lang::solana_program::keccak::hash` (Keccak-256): the
/// returned `Hash` wraps a 32-byte digest computed from the input bytes
/// alone, and `Hash::to_bytes` hands back exactly that array.
#[verifier::external_body]
pub fn keccak256(data: &[u8]) -> (digest: [u8; 32])
    ensures
        digest@ == keccak_of(data@),
{
    #[allow(deprecated)]
    anchor_lang::solana_program::keccak::hash(data).to_bytes()
}

/// Hash a decision payload: the digest of the payload's UTF-8 bytes.
pub fn hash_payload(payload: &str) -> (digest: [u8; 32])
    ensures
        digest@ == keccak_of(payload.spec_bytes()),
{
    keccak256(payload.as_bytes())
}

/// Bind two child digests into one commitment:
/// `H(input_hash ‖ logic_hash)`.
pub fn merkle_root_of(input_hash: &[u8; 32], logic_hash: &[u8; 32]) -> (root: [u8; 32])
    ensures
        root@ == keccak_of(input_hash@ + logic_hash@),
{
    let mut combined: Vec<u8> = Vec::new();
    combined.extend_from_slice(input_hash.as_slice());
    combined.extend_from_slice(logic_hash.as_slice());
    proof {
        assert(combined@ =~= input_hash@ + logic_hash@);
    }
    keccak256(combined.as_slice())
}

} // verus!
