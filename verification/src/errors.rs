//! Failure reasons reported by the engine.
//!
//! Every operation rejects a bad request before mutating any state, so a
//! caller that receives an error can resubmit after fixing the request.

use vstd::prelude::*;

verus! {

/// The reason an operation was rejected. No state is mutated when one of
/// these is returned.
#[derive(Clone, Copy, PartialEq, Eq, Structural, Debug)]
pub enum ErrorCode {
    /// Agent identifier longer than 64 bytes.
    AgentIdTooLong,
    /// Decision input payload longer than 256 bytes.
    InputTooLong,
    /// Decision logic payload longer than 256 bytes.
    LogicTooLong,
    /// Attestation outcome payload longer than 256 bytes.
    OutcomeTooLong,
    /// The decision log was already finalized by an attestation.
    AlreadyAttested,
    /// Adding the score delta to the reputation overflowed.
    ReputationOverflow,
    /// Module identifier longer than 64 bytes.
    ModuleIdTooLong,
    /// Content reference longer than 128 bytes.
    IpfsHashTooLong,
    /// Royalty above 10000 basis points.
    InvalidRoyalty,
    /// Price below the minimum floor.
    PriceTooLow,
    /// Platform or referral fee above 1000 basis points.
    FeeTooHigh,
    /// The module is deactivated and can no longer be purchased.
    ModuleNotActive,
    /// A record already occupies the derived key.
    AlreadyExists,
    /// No record exists at the derived key.
    NotFound,
    /// The caller is not the authority or creator stored on the record.
    Unauthorized,
    /// A counter update would overflow.
    ArithmeticOverflow,
}

} // verus!
