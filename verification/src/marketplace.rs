//! Marketplace registry lifecycle: publish a module, reprice it, take it off
//! the market.
//!
//! Only the stored creator may reprice or deactivate a module, and
//! deactivation is irreversible in this engine: there is no reactivate
//! operation, so a deactivated module can never again be purchased.

use vstd::prelude::*;

use crate::account::{Address, ModuleMetadata};
use crate::errors::ErrorCode;
use crate::state::AgentMemory;

verus! {

use crate::account::{
    byte_len, MAX_ID_BYTES, MAX_IPFS_HASH_BYTES, MAX_ROYALTY_BPS, MIN_PRICE_LAMPORTS,
};

/// Notification emitted when a module is registered.
#[derive(Debug, PartialEq, Eq)]
pub struct ModuleRegistered {
    pub module_id: String,
    pub creator: Address,
    pub price_lamports: u64,
    pub ipfs_hash: String,
}

impl AgentMemory {
    /// Publish a new module.
    ///
    /// Rejects, in this order: a module identifier whose derived key is
    /// already occupied (`AlreadyExists`), an identifier over 64 bytes, a
    /// content reference over 128 bytes, a royalty above 10000 basis points,
    /// and a price below the minimum floor. On success a fresh record is
    /// appended with zero sales and revenue and the active flag set, and the
    /// returned notification carries the registered values.
    pub fn register_module(
        &mut self,
        module_id: String,
        creator: Address,
        price_lamports: u64,
        royalty_bps: u16,
        ipfs_hash: String,
    ) -> (r: Result<ModuleRegistered, ErrorCode>)
        requires
            old(self).wf(),
        ensures
            final(self).wf(),
            r is Err ==> *final(self) == *old(self),
            r == Err::<ModuleRegistered, ErrorCode>(ErrorCode::AlreadyExists) <==> old(
                self,
            ).has_module(module_id@),
            !old(self).has_module(module_id@) && byte_len(module_id@) > MAX_ID_BYTES ==> r
                == Err::<ModuleRegistered, ErrorCode>(ErrorCode::ModuleIdTooLong),
            !old(self).has_module(module_id@) && byte_len(module_id@) <= MAX_ID_BYTES
                && byte_len(ipfs_hash@) > MAX_IPFS_HASH_BYTES ==> r == Err::<
                ModuleRegistered,
                ErrorCode,
            >(ErrorCode::IpfsHashTooLong),
            !old(self).has_module(module_id@) && byte_len(module_id@) <= MAX_ID_BYTES
                && byte_len(ipfs_hash@) <= MAX_IPFS_HASH_BYTES && royalty_bps > MAX_ROYALTY_BPS
                ==> r == Err::<ModuleRegistered, ErrorCode>(ErrorCode::InvalidRoyalty),
            !old(self).has_module(module_id@) && byte_len(module_id@) <= MAX_ID_BYTES
                && byte_len(ipfs_hash@) <= MAX_IPFS_HASH_BYTES && royalty_bps
                <= MAX_ROYALTY_BPS && price_lamports < MIN_PRICE_LAMPORTS ==> r == Err::<
                ModuleRegistered,
                ErrorCode,
            >(ErrorCode::PriceTooLow),
            r is Ok <==> !old(self).has_module(module_id@) && byte_len(module_id@)
                <= MAX_ID_BYTES && byte_len(ipfs_hash@) <= MAX_IPFS_HASH_BYTES && royalty_bps
                <= MAX_ROYALTY_BPS && price_lamports >= MIN_PRICE_LAMPORTS,
            r is Ok ==> final(self).modules@ == old(self).modules@.push(
                (ModuleMetadata {
                    module_id,
                    creator,
                    price_lamports,
                    royalty_bps,
                    total_sales: 0,
                    total_revenue: 0,
                    ipfs_hash,
                    is_active: true,
                }),
            ),
            r is Ok ==> final(self).config == old(self).config
                && final(self).agents@ == old(self).agents@
                && final(self).logs@ == old(self).logs@
                && final(self).attestations@ == old(self).attestations@
                && final(self).purchases@ == old(self).purchases@,
            r matches Ok(ev) ==> ev.module_id@ == module_id@ && ev.creator == creator
                && ev.price_lamports == price_lamports && ev.ipfs_hash@ == ipfs_hash@,
    {
        if self.find_module(&module_id).is_some() {
            return Err(ErrorCode::AlreadyExists);
        }
        if module_id.as_str().as_bytes().len() > MAX_ID_BYTES {
            return Err(ErrorCode::ModuleIdTooLong);
        }
        if ipfs_hash.as_str().as_bytes().len() > MAX_IPFS_HASH_BYTES {
            return Err(ErrorCode::IpfsHashTooLong);
        }
        if royalty_bps > MAX_ROYALTY_BPS {
            return Err(ErrorCode::InvalidRoyalty);
        }
        if price_lamports < MIN_PRICE_LAMPORTS {
            return Err(ErrorCode::PriceTooLow);
        }
        let event = ModuleRegistered {
            module_id: module_id.clone(),
            creator,
            price_lamports,
            ipfs_hash: ipfs_hash.clone(),
        };
        self.modules.push(
            ModuleMetadata {
                module_id,
                creator,
                price_lamports,
                royalty_bps,
                total_sales: 0,
                total_revenue: 0,
                ipfs_hash,
                is_active: true,
            },
        );
        Ok(event)
    }

    /// Change a module's price and royalty split.
    ///
    /// Rejects, in this order: an unknown module (`NotFound`), a caller other
    /// than the stored creator (`Unauthorized`), a price below the floor, and
    /// a royalty above 10000 basis points. On success only those two fields
    /// change: the historical `total_sales` and `total_revenue` counters and
    /// everything else are untouched.
    pub fn update_module_pricing(
        &mut self,
        module_id: &String,
        caller: Address,
        new_price: u64,
        new_royalty_bps: u16,
    ) -> (r: Result<(), ErrorCode>)
        requires
            old(self).wf(),
        ensures
            final(self).wf(),
            r is Err ==> *final(self) == *old(self),
            r == Err::<(), ErrorCode>(ErrorCode::NotFound) <==> !old(self).has_module(
                module_id@,
            ),
            old(self).has_module(module_id@) && caller != old(self).modules@[old(
                self,
            ).module_at(module_id@)].creator ==> r == Err::<(), ErrorCode>(
                ErrorCode::Unauthorized,
            ),
            old(self).has_module(module_id@) && caller == old(self).modules@[old(
                self,
            ).module_at(module_id@)].creator && new_price < MIN_PRICE_LAMPORTS ==> r == Err::<
                (),
                ErrorCode,
            >(ErrorCode::PriceTooLow),
            old(self).has_module(module_id@) && caller == old(self).modules@[old(
                self,
            ).module_at(module_id@)].creator && new_price >= MIN_PRICE_LAMPORTS
                && new_royalty_bps > MAX_ROYALTY_BPS ==> r == Err::<(), ErrorCode>(
                ErrorCode::InvalidRoyalty,
            ),
            r is Ok <==> old(self).has_module(module_id@) && caller == old(self).modules@[old(
                self,
            ).module_at(module_id@)].creator && new_price >= MIN_PRICE_LAMPORTS
                && new_royalty_bps <= MAX_ROYALTY_BPS,
            r is Ok ==> final(self).modules@ == old(self).modules@.update(
                old(self).module_at(module_id@),
                (ModuleMetadata {
                    price_lamports: new_price,
                    royalty_bps: new_royalty_bps,
                    ..old(self).modules@[old(self).module_at(module_id@)]
                }),
            ),
            r is Ok ==> final(self).modules@[old(self).module_at(module_id@)].total_sales == old(
                self,
            ).modules@[old(self).module_at(module_id@)].total_sales,
            r is Ok ==> final(self).modules@[old(self).module_at(module_id@)].total_revenue
                == old(self).modules@[old(self).module_at(module_id@)].total_revenue,
            final(self).config == old(self).config && final(self).agents@ == old(self).agents@
                && final(self).logs@ == old(self).logs@
                && final(self).attestations@ == old(self).attestations@
                && final(self).purchases@ == old(self).purchases@,
    {
        let found = self.find_module(module_id);
        let k = match found {
            Some(k) => k,
            None => {
                return Err(ErrorCode::NotFound);
            },
        };
        proof {
            lemma_module_index_unique(*self, module_id@, k as int);
        }
        if self.modules[k].creator != caller {
            return Err(ErrorCode::Unauthorized);
        }
        if new_price < MIN_PRICE_LAMPORTS {
            return Err(ErrorCode::PriceTooLow);
        }
        if new_royalty_bps > MAX_ROYALTY_BPS {
            return Err(ErrorCode::InvalidRoyalty);
        }
        let m = &mut self.modules[k];
        m.price_lamports = new_price;
        m.royalty_bps = new_royalty_bps;
        Ok(())
    }

    /// Take a module off the market.
    ///
    /// Rejects an unknown module (`NotFound`) and a caller other than the
    /// stored creator (`Unauthorized`). On success only the active flag is
    /// cleared; deactivating an already inactive module is accepted and
    /// leaves it inactive.
    pub fn deactivate_module(&mut self, module_id: &String, caller: Address) -> (r: Result<
        (),
        ErrorCode,
    >)
        requires
            old(self).wf(),
        ensures
            final(self).wf(),
            r is Err ==> *final(self) == *old(self),
            r == Err::<(), ErrorCode>(ErrorCode::NotFound) <==> !old(self).has_module(
                module_id@,
            ),
            old(self).has_module(module_id@) && caller != old(self).modules@[old(
                self,
            ).module_at(module_id@)].creator ==> r == Err::<(), ErrorCode>(
                ErrorCode::Unauthorized,
            ),
            r is Ok <==> old(self).has_module(module_id@) && caller == old(self).modules@[old(
                self,
            ).module_at(module_id@)].creator,
            r is Ok ==> final(self).modules@ == old(self).modules@.update(
                old(self).module_at(module_id@),
                (ModuleMetadata {
                    is_active: false,
                    ..old(self).modules@[old(self).module_at(module_id@)]
                }),
            ),
            final(self).config == old(self).config && final(self).agents@ == old(self).agents@
                && final(self).logs@ == old(self).logs@
                && final(self).attestations@ == old(self).attestations@
                && final(self).purchases@ == old(self).purchases@,
    {
        let found = self.find_module(module_id);
        let k = match found {
            Some(k) => k,
            None => {
                return Err(ErrorCode::NotFound);
            },
        };
        proof {
            lemma_module_index_unique(*self, module_id@, k as int);
        }
        if self.modules[k].creator != caller {
            return Err(ErrorCode::Unauthorized);
        }
        let m = &mut self.modules[k];
        m.is_active = false;
        Ok(())
    }
}

/// In a well-formed store, any index whose module carries the identifier is
/// the index `module_at` names: module identifiers are unique.
pub proof fn lemma_module_index_unique(s: AgentMemory, id: Seq<char>, k: int)
    requires
        s.wf(),
        0 <= k < s.modules@.len(),
        s.modules@[k].module_id@ == id,
    ensures
        s.module_at(id) == k,
        s.has_module(id),
{
    assert(s.has_module(id));
    let j = s.module_at(id);
    if j != k {
        assert(s.modules@[j].module_id@ != s.modules@[k].module_id@);
    }
}

} // verus!
