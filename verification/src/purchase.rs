//! The purchase and fee distribution engine.
//!
//! A purchase reads the module and the platform configuration, splits the
//! price three ways — platform fee, optional referral fee, creator amount —
//! stages the corresponding transfers for the host to perform, then commits
//! the purchase record and the module's counters. The creator amount is
//! computed by subtraction from the price, never independently, so the three
//! amounts always sum exactly to the price: every rounding residue accrues
//! to the creator, never to the platform or the referrer.

use vstd::prelude::*;

use crate::account::{Address, ModuleMetadata, ModulePurchase, PlatformConfig};
use crate::errors::ErrorCode;
use crate::state::{lemma_agent_index_unique, AgentMemory};

verus! {

use crate::account::config_wf;
use crate::marketplace::lemma_module_index_unique;

/// Notification emitted when a module is purchased, carrying the staged
/// split. The host performs the three transfers: `platform_fee` to the
/// treasury, `creator_royalty` to the module creator, and `referral_fee` to
/// the referrer when one was supplied.
#[derive(Debug, PartialEq, Eq)]
pub struct ModulePurchased {
    pub module_id: String,
    pub agent_id: String,
    pub price_paid: u64,
    pub platform_fee: u64,
    pub creator_royalty: u64,
    pub referral_fee: u64,
}

/// A fee fraction in basis points, rounded down: `floor(price × bps / 10000)`.
pub open spec fn fee_amount(price: u64, bps: u16) -> int {
    (price * bps) / 10000
}

/// The platform's cut of a purchase at this configuration.
pub open spec fn platform_fee_of(price: u64, c: PlatformConfig) -> int {
    fee_amount(price, c.platform_fee_bps)
}

/// The referrer's cut: zero when no referrer was supplied.
pub open spec fn referral_fee_of(price: u64, c: PlatformConfig, has_referrer: bool) -> int {
    if has_referrer {
        fee_amount(price, c.referral_fee_bps)
    } else {
        0
    }
}

/// The creator's amount: whatever the price leaves after both fees.
pub open spec fn creator_amount_of(price: u64, c: PlatformConfig, has_referrer: bool) -> int {
    price - platform_fee_of(price, c) - referral_fee_of(price, c, has_referrer)
}

/// A rounded-down fee fraction stays between zero and the price itself.
pub proof fn lemma_fee_amount_in_range(price: u64, bps: u16)
    requires
        bps <= 10000,
    ensures
        0 <= fee_amount(price, bps) <= price,
{
    assert(0 <= (price * bps) / 10000 <= price) by (nonlinear_arith)
        requires
            0 <= price <= u64::MAX,
            0 <= bps <= 10000,
    ;
}

/// The fee-split law: for every price and every configuration within the
/// fee ceiling, the platform fee, the creator amount and the referral fee
/// are each non-negative and sum exactly to the price — no value leaks and
/// none is minted, with or without a referrer.
pub proof fn lemma_fee_split_exact(price: u64, c: PlatformConfig, has_referrer: bool)
    requires
        config_wf(c),
    ensures
        platform_fee_of(price, c) + creator_amount_of(price, c, has_referrer)
            + referral_fee_of(price, c, has_referrer) == price,
        0 <= platform_fee_of(price, c) <= price,
        0 <= referral_fee_of(price, c, has_referrer) <= price,
        0 <= creator_amount_of(price, c, has_referrer) <= price,
{
    lemma_fee_amount_in_range(price, c.platform_fee_bps);
    lemma_fee_amount_in_range(price, c.referral_fee_bps);
    lemma_two_fees_fit(price, c.platform_fee_bps, c.referral_fee_bps);
}

/// Two fees capped at 1000 basis points each never exceed the price
/// together, so the creator amount cannot underflow.
proof fn lemma_two_fees_fit(price: u64, pb: u16, rb: u16)
    requires
        pb <= 1000,
        rb <= 1000,
    ensures
        fee_amount(price, pb) + fee_amount(price, rb) <= price,
{
    assert((price * pb) / 10000 + (price * rb) / 10000 <= price) by (nonlinear_arith)
        requires
            0 <= price <= u64::MAX,
            0 <= pb <= 1000,
            0 <= rb <= 1000,
    ;
}

/// Compute one fee fraction in a widened intermediate so the
/// multiplication cannot overflow, then narrow: the result is bounded by
/// the price.
fn fee_portion(price: u64, bps: u16) -> (fee: u64)
    requires
        bps <= 10000,
    ensures
        fee == fee_amount(price, bps),
        fee <= price,
{
    proof {
        lemma_fee_amount_in_range(price, bps);
        assert((price as u128) * (bps as u128) == price * bps) by (nonlinear_arith)
            requires
                0 <= price <= u64::MAX,
                0 <= bps <= 10000,
        ;
    }
    (((price as u128) * (bps as u128)) / 10000) as u64
}

impl AgentMemory {
    /// Purchase a module for an agent, splitting the price.
    ///
    /// Rejects, in this order: an unknown module (`NotFound`), a missing
    /// platform configuration (`NotFound`), an (agent, module) key that
    /// already holds a purchase record (`AlreadyExists` — re-purchase never
    /// counts twice), an unknown agent (`NotFound`), a deactivated module
    /// (`ModuleNotActive` — for every caller, the creator included), and a
    /// sales or revenue counter that can no longer grow. On success the
    /// returned notification stages the exact three-way split of the
    /// module's current price, a purchase record is appended, the module's
    /// `total_sales` grows by one and its `total_revenue` by the price; a
    /// failed attempt changes nothing.
    pub fn purchase_module(
        &mut self,
        module_id: &String,
        agent_id: &String,
        referrer: Option<Address>,
        now: i64,
    ) -> (r: Result<ModulePurchased, ErrorCode>)
        requires
            old(self).wf(),
        ensures
            final(self).wf(),
            r is Err ==> *final(self) == *old(self),
            r == Err::<ModulePurchased, ErrorCode>(ErrorCode::NotFound) <==> !old(
                self,
            ).has_module(module_id@) || old(self).config is None || (!old(self).has_purchase(
                agent_id@,
                module_id@,
            ) && !old(self).has_agent(agent_id@)),
            r == Err::<ModulePurchased, ErrorCode>(ErrorCode::AlreadyExists) <==> old(
                self,
            ).has_module(module_id@) && old(self).config is Some && old(self).has_purchase(
                agent_id@,
                module_id@,
            ),
            r == Err::<ModulePurchased, ErrorCode>(ErrorCode::ModuleNotActive) <==> old(
                self,
            ).has_module(module_id@) && old(self).config is Some && !old(self).has_purchase(
                agent_id@,
                module_id@,
            ) && old(self).has_agent(agent_id@) && !old(self).modules@[old(self).module_at(
                module_id@,
            )].is_active,
            old(self).has_module(module_id@) && old(self).config is Some && !old(
                self,
            ).has_purchase(agent_id@, module_id@) && old(self).has_agent(agent_id@) && old(
                self,
            ).modules@[old(self).module_at(module_id@)].is_active && (old(self).modules@[old(
                self,
            ).module_at(module_id@)].total_sales == u64::MAX || old(self).modules@[old(
                self,
            ).module_at(module_id@)].total_revenue + old(self).modules@[old(self).module_at(
                module_id@,
            )].price_lamports > u64::MAX) ==> r == Err::<ModulePurchased, ErrorCode>(
                ErrorCode::ArithmeticOverflow,
            ),
            r is Ok <==> old(self).has_module(module_id@) && old(self).config is Some && !old(
                self,
            ).has_purchase(agent_id@, module_id@) && old(self).has_agent(agent_id@) && old(
                self,
            ).modules@[old(self).module_at(module_id@)].is_active && old(self).modules@[old(
                self,
            ).module_at(module_id@)].total_sales < u64::MAX && old(self).modules@[old(
                self,
            ).module_at(module_id@)].total_revenue + old(self).modules@[old(self).module_at(
                module_id@,
            )].price_lamports <= u64::MAX,
            r matches Ok(ev) ==> ({
                let m = old(self).modules@[old(self).module_at(module_id@)];
                let c = old(self).config->Some_0;
                &&& ev.module_id@ == module_id@
                &&& ev.agent_id@ == agent_id@
                &&& ev.price_paid == m.price_lamports
                &&& ev.platform_fee == platform_fee_of(m.price_lamports, c)
                &&& ev.referral_fee == referral_fee_of(m.price_lamports, c, referrer is Some)
                &&& ev.creator_royalty == creator_amount_of(
                    m.price_lamports,
                    c,
                    referrer is Some,
                )
                &&& ev.platform_fee + ev.creator_royalty + ev.referral_fee == m.price_lamports
            }),
            r is Ok ==> ({
                let pu = final(self).purchases@.last();
                &&& final(self).purchases@ == old(self).purchases@.push(pu)
                &&& pu.agent_id@ == agent_id@
                &&& pu.module_id@ == module_id@
                &&& pu.purchased_at == now
                &&& pu.price_paid == old(self).modules@[old(self).module_at(
                    module_id@,
                )].price_lamports
            }),
            r is Ok ==> final(self).modules@ == old(self).modules@.update(
                old(self).module_at(module_id@),
                (ModuleMetadata {
                    total_sales: (old(self).modules@[old(self).module_at(module_id@)].total_sales
                        + 1) as u64,
                    total_revenue: (old(self).modules@[old(self).module_at(
                        module_id@,
                    )].total_revenue + old(self).modules@[old(self).module_at(
                        module_id@,
                    )].price_lamports) as u64,
                    ..old(self).modules@[old(self).module_at(module_id@)]
                }),
            ),
            r is Ok ==> final(self).config == old(self).config
                && final(self).agents@ == old(self).agents@
                && final(self).logs@ == old(self).logs@
                && final(self).attestations@ == old(self).attestations@,
    {
        let found_module = self.find_module(module_id);
        let k = match found_module {
            Some(k) => k,
            None => {
                return Err(ErrorCode::NotFound);
            },
        };
        proof {
            lemma_module_index_unique(*self, module_id@, k as int);
        }
        let cfg = match self.config {
            Some(c) => c,
            None => {
                return Err(ErrorCode::NotFound);
            },
        };
        if self.find_purchase(agent_id, module_id).is_some() {
            return Err(ErrorCode::AlreadyExists);
        }
        let found_agent = self.find_agent(agent_id);
        let a = match found_agent {
            Some(a) => a,
            None => {
                return Err(ErrorCode::NotFound);
            },
        };
        proof {
            lemma_agent_index_unique(*self, agent_id@, a as int);
        }
        if !self.modules[k].is_active {
            return Err(ErrorCode::ModuleNotActive);
        }

        let price = self.modules[k].price_lamports;
        let platform_fee = fee_portion(price, cfg.platform_fee_bps);
        let referral_fee: u64 = match referrer {
            Some(_) => fee_portion(price, cfg.referral_fee_bps),
            None => 0,
        };
        proof {
            lemma_fee_split_exact(price, cfg, referrer is Some);
        }
        let creator_royalty = price - platform_fee - referral_fee;

        let new_total_sales = match self.modules[k].total_sales.checked_add(1) {
            Some(v) => v,
            None => {
                return Err(ErrorCode::ArithmeticOverflow);
            },
        };
        let new_total_revenue = match self.modules[k].total_revenue.checked_add(price) {
            Some(v) => v,
            None => {
                return Err(ErrorCode::ArithmeticOverflow);
            },
        };

        self.purchases.push(
            ModulePurchase {
                agent_id: agent_id.clone(),
                module_id: module_id.clone(),
                purchased_at: now,
                price_paid: price,
            },
        );
        let m = &mut self.modules[k];
        m.total_sales = new_total_sales;
        m.total_revenue = new_total_revenue;

        Ok(
            ModulePurchased {
                module_id: module_id.clone(),
                agent_id: agent_id.clone(),
                price_paid: price,
                platform_fee,
                creator_royalty,
                referral_fee,
            },
        )
    }
}

} // verus!
