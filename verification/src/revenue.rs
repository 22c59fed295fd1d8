//! Revenue tracking: derived, non-authoritative analytics per agent.
//!
//! The tracker accumulates transaction totals and keeps a rough monthly
//! recurring revenue estimate. Nothing in the core depends on these
//! figures; they only summarize what already happened.

use vstd::prelude::*;

use crate::account::Address;

verus! {

/// Seconds in a day, the granularity of the activity window.
pub const SECONDS_PER_DAY: u64 = 86400;

/// Per-agent revenue counters, keyed by the agent's address.
pub struct RevenueTracker {
    pub agent: Address,
    pub total_revenue: u64,
    pub mrr: u64,
    pub transaction_count: u64,
    pub avg_transaction: u64,
    pub first_transaction_at: i64,
    pub last_transaction_at: i64,
}

/// The monthly-recurring-revenue estimate after a transaction at
/// `timestamp`: total revenue divided by whole months of activity, updated
/// only once more than thirty days have passed since the first transaction.
pub open spec fn mrr_after(
    total_revenue: u64,
    first_at: i64,
    timestamp: i64,
    previous_mrr: u64,
) -> int {
    let days_active = (timestamp - first_at) / (SECONDS_PER_DAY as int);
    if days_active > 30 {
        (total_revenue as int) / (days_active / 30)
    } else {
        previous_mrr as int
    }
}

impl RevenueTracker {
    /// A fresh tracker for an agent: all counters at zero.
    pub fn new(agent: Address) -> (r: RevenueTracker)
        ensures
            r.agent == agent,
            r.total_revenue == 0,
            r.mrr == 0,
            r.transaction_count == 0,
            r.avg_transaction == 0,
            r.first_transaction_at == 0,
            r.last_transaction_at == 0,
    {
        RevenueTracker {
            agent,
            total_revenue: 0,
            mrr: 0,
            transaction_count: 0,
            avg_transaction: 0,
            first_transaction_at: 0,
            last_transaction_at: 0,
        }
    }

    /// Fold one transaction into the counters: add the amount, bump the
    /// count, recompute the average, stamp the first and last activity
    /// times, and refresh the monthly estimate once more than thirty days
    /// of history exist.
    ///
    /// Timestamps must not run backwards and the counters must have room;
    /// both are the caller's obligations, as the analytics make no attempt
    /// to handle clock skew or saturation.
    pub fn record_transaction(&mut self, amount: u64, timestamp: i64)
        requires
            old(self).total_revenue + amount <= u64::MAX,
            old(self).transaction_count + 1 <= u64::MAX,
            0 <= old(self).first_transaction_at <= timestamp,
        ensures
            final(self).agent == old(self).agent,
            final(self).total_revenue == old(self).total_revenue + amount,
            final(self).transaction_count == old(self).transaction_count + 1,
            final(self).avg_transaction == final(self).total_revenue as int
                / final(self).transaction_count as int,
            final(self).first_transaction_at == if old(self).first_transaction_at == 0 {
                timestamp
            } else {
                old(self).first_transaction_at
            },
            final(self).last_transaction_at == timestamp,
            final(self).mrr == mrr_after(
                final(self).total_revenue,
                final(self).first_transaction_at,
                timestamp,
                old(self).mrr,
            ),
    {
        self.total_revenue = self.total_revenue + amount;
        self.transaction_count = self.transaction_count + 1;
        self.avg_transaction = self.total_revenue / self.transaction_count;

        if self.first_transaction_at == 0 {
            self.first_transaction_at = timestamp;
        }
        self.last_transaction_at = timestamp;

        let elapsed: u64 = (timestamp - self.first_transaction_at) as u64;
        let days_active: u64 = elapsed / SECONDS_PER_DAY;
        if days_active > 30 {
            let months_active: u64 = days_active / 30;
            self.mrr = self.total_revenue / months_active;
        }
        proof {
            assert(days_active == (timestamp - self.first_transaction_at) / (
            SECONDS_PER_DAY as int));
        }
    }
}

} // verus!
