//! The keyed record store and the engine's global well-formedness invariant.
//!
//! The host ledger addresses every record by a key derived from its
//! identifying fields. This store reproduces that uniqueness guarantee
//! explicitly: each collection rejects a create whose key is already
//! occupied, which is what several invariants (one attestation per log, one
//! purchase per agent/module pair) depend on. Authority checks are explicit
//! capability checks: each mutating operation takes the asserted caller
//! identity and compares it against the owner stored on the record.

use vstd::prelude::*;

use crate::account::{
    agent_wf, config_wf, module_wf, Address, AgentAccount, Attestation, MemoryLog,
    ModuleMetadata, ModulePurchase, PlatformConfig,
};
use crate::errors::ErrorCode;

verus! {

use crate::account::{byte_len, MAX_FEE_BPS, MAX_ID_BYTES};

/// The whole engine state: one keyed collection per record type.
///
/// Everything is append-only except the explicitly allowed mutations: a
/// module's pricing, activation flag and counters, an agent's counters and
/// reputation, and a log's one-shot `is_attested` flag.
pub struct AgentMemory {
    pub config: Option<PlatformConfig>,
    pub agents: Vec<AgentAccount>,
    pub logs: Vec<MemoryLog>,
    pub attestations: Vec<Attestation>,
    pub modules: Vec<ModuleMetadata>,
    pub purchases: Vec<ModulePurchase>,
}

impl AgentMemory {
    /// An agent record with this identifier exists.
    pub open spec fn has_agent(self, id: Seq<char>) -> bool {
        exists|i: int| 0 <= i < self.agents@.len() && self.agents@[i].agent_id@ == id
    }

    /// The index of the agent record with this identifier.
    pub open spec fn agent_at(self, id: Seq<char>) -> int {
        choose|i: int| 0 <= i < self.agents@.len() && self.agents@[i].agent_id@ == id
    }

    /// A decision log with this (agent, creation time) key exists.
    pub open spec fn has_log(self, agent_id: Seq<char>, logged_at: i64) -> bool {
        exists|i: int|
            0 <= i < self.logs@.len() && self.logs@[i].agent_id@ == agent_id
                && self.logs@[i].timestamp == logged_at
    }

    /// The index of the decision log with this key.
    pub open spec fn log_at(self, agent_id: Seq<char>, logged_at: i64) -> int {
        choose|i: int|
            0 <= i < self.logs@.len() && self.logs@[i].agent_id@ == agent_id
                && self.logs@[i].timestamp == logged_at
    }

    /// An attestation keyed by this decision log exists.
    pub open spec fn has_attestation(self, agent_id: Seq<char>, logged_at: i64) -> bool {
        exists|i: int|
            0 <= i < self.attestations@.len() && self.attestations@[i].agent_id@ == agent_id
                && self.attestations@[i].logged_at == logged_at
    }

    /// A module record with this identifier exists.
    pub open spec fn has_module(self, id: Seq<char>) -> bool {
        exists|i: int| 0 <= i < self.modules@.len() && self.modules@[i].module_id@ == id
    }

    /// The index of the module record with this identifier.
    pub open spec fn module_at(self, id: Seq<char>) -> int {
        choose|i: int| 0 <= i < self.modules@.len() && self.modules@[i].module_id@ == id
    }

    /// A purchase record with this (agent, module) key exists.
    pub open spec fn has_purchase(self, agent_id: Seq<char>, module_id: Seq<char>) -> bool {
        exists|i: int|
            0 <= i < self.purchases@.len() && self.purchases@[i].agent_id@ == agent_id
                && self.purchases@[i].module_id@ == module_id
    }

    /// The global invariant: every record is well formed, every key is
    /// unique, and a log is marked attested exactly when its attestation
    /// record exists.
    pub open spec fn wf(self) -> bool {
        &&& match self.config {
            Some(c) => config_wf(c),
            None => true,
        }
        &&& forall|i: int|
            0 <= i < self.agents@.len() ==> agent_wf(#[trigger] self.agents@[i])
        &&& forall|i: int, j: int|
            #![trigger self.agents@[i], self.agents@[j]]
            0 <= i < j < self.agents@.len() ==> self.agents@[i].agent_id@
                != self.agents@[j].agent_id@
        &&& forall|i: int|
            0 <= i < self.modules@.len() ==> module_wf(#[trigger] self.modules@[i])
        &&& forall|i: int, j: int|
            #![trigger self.modules@[i], self.modules@[j]]
            0 <= i < j < self.modules@.len() ==> self.modules@[i].module_id@
                != self.modules@[j].module_id@
        &&& forall|i: int, j: int|
            #![trigger self.logs@[i], self.logs@[j]]
            0 <= i < j < self.logs@.len() ==> !(self.logs@[i].agent_id@
                == self.logs@[j].agent_id@ && self.logs@[i].timestamp
                == self.logs@[j].timestamp)
        &&& forall|i: int, j: int|
            #![trigger self.attestations@[i], self.attestations@[j]]
            0 <= i < j < self.attestations@.len() ==> !(self.attestations@[i].agent_id@
                == self.attestations@[j].agent_id@ && self.attestations@[i].logged_at
                == self.attestations@[j].logged_at)
        &&& forall|i: int, j: int|
            #![trigger self.purchases@[i], self.purchases@[j]]
            0 <= i < j < self.purchases@.len() ==> !(self.purchases@[i].agent_id@
                == self.purchases@[j].agent_id@ && self.purchases@[i].module_id@
                == self.purchases@[j].module_id@)
        &&& forall|i: int|
            0 <= i < self.attestations@.len() ==> self.log_attested(
                (#[trigger] self.attestations@[i]).agent_id@,
                self.attestations@[i].logged_at,
            )
        &&& forall|i: int|
            0 <= i < self.logs@.len() && (#[trigger] self.logs@[i]).is_attested
                ==> self.has_attestation(self.logs@[i].agent_id@, self.logs@[i].timestamp)
    }

    /// The log with this key exists and is already marked attested.
    pub open spec fn log_attested(self, agent_id: Seq<char>, logged_at: i64) -> bool {
        &&& self.has_log(agent_id, logged_at)
        &&& self.logs@[self.log_at(agent_id, logged_at)].is_attested
    }

    /// An empty store: no configuration, no records.
    pub fn new() -> (s: AgentMemory)
        ensures
            s.wf(),
            s.config is None,
            s.agents@.len() == 0,
            s.logs@.len() == 0,
            s.attestations@.len() == 0,
            s.modules@.len() == 0,
            s.purchases@.len() == 0,
    {
        AgentMemory {
            config: None,
            agents: Vec::new(),
            logs: Vec::new(),
            attestations: Vec::new(),
            modules: Vec::new(),
            purchases: Vec::new(),
        }
    }

    /// Look up an agent record by identifier.
    pub fn find_agent(&self, agent_id: &String) -> (r: Option<usize>)
        ensures
            match r {
                Some(i) => i < self.agents@.len() && self.agents@[i as int].agent_id@
                    == agent_id@,
                None => !self.has_agent(agent_id@),
            },
    {
        let n = self.agents.len();
        for i in 0..n
            invariant
                n == self.agents@.len(),
                forall|j: int| 0 <= j < i ==> (#[trigger] self.agents@[j]).agent_id@ != agent_id@,
        {
            if self.agents[i].agent_id == *agent_id {
                return Some(i);
            }
        }
        None
    }

    /// Look up a decision log by its (agent, creation time) key.
    pub fn find_log(&self, agent_id: &String, logged_at: i64) -> (r: Option<usize>)
        ensures
            match r {
                Some(i) => i < self.logs@.len() && self.logs@[i as int].agent_id@ == agent_id@
                    && self.logs@[i as int].timestamp == logged_at,
                None => !self.has_log(agent_id@, logged_at),
            },
    {
        let n = self.logs.len();
        for i in 0..n
            invariant
                n == self.logs@.len(),
                forall|j: int|
                    0 <= j < i ==> !((#[trigger] self.logs@[j]).agent_id@ == agent_id@
                        && self.logs@[j].timestamp == logged_at),
        {
            if self.logs[i].timestamp == logged_at && self.logs[i].agent_id == *agent_id {
                return Some(i);
            }
        }
        None
    }

    /// Look up a module record by identifier.
    pub fn find_module(&self, module_id: &String) -> (r: Option<usize>)
        ensures
            match r {
                Some(i) => i < self.modules@.len() && self.modules@[i as int].module_id@
                    == module_id@,
                None => !self.has_module(module_id@),
            },
    {
        let n = self.modules.len();
        for i in 0..n
            invariant
                n == self.modules@.len(),
                forall|j: int|
                    0 <= j < i ==> (#[trigger] self.modules@[j]).module_id@ != module_id@,
        {
            if self.modules[i].module_id == *module_id {
                return Some(i);
            }
        }
        None
    }

    /// Look up a purchase record by its (agent, module) key.
    pub fn find_purchase(&self, agent_id: &String, module_id: &String) -> (r: Option<usize>)
        ensures
            match r {
                Some(i) => i < self.purchases@.len() && self.purchases@[i as int].agent_id@
                    == agent_id@ && self.purchases@[i as int].module_id@ == module_id@,
                None => !self.has_purchase(agent_id@, module_id@),
            },
    {
        let n = self.purchases.len();
        for i in 0..n
            invariant
                n == self.purchases@.len(),
                forall|j: int|
                    0 <= j < i ==> !((#[trigger] self.purchases@[j]).agent_id@ == agent_id@
                        && self.purchases@[j].module_id@ == module_id@),
        {
            if self.purchases[i].agent_id == *agent_id
                && self.purchases[i].module_id == *module_id {
                return Some(i);
            }
        }
        None
    }

    /// Create the singleton platform configuration.
    ///
    /// Fails with `AlreadyExists` if the configuration was created before,
    /// and with `FeeTooHigh` (checked in that order) if either fee exceeds
    /// the 10% ceiling. On success the configuration is exactly the given
    /// values and nothing else changes.
    pub fn initialize_platform(
        &mut self,
        authority: Address,
        treasury: Address,
        platform_fee_bps: u16,
        referral_fee_bps: u16,
    ) -> (r: Result<(), ErrorCode>)
        requires
            old(self).wf(),
        ensures
            final(self).wf(),
            r is Err ==> *final(self) == *old(self),
            r == Err::<(), ErrorCode>(ErrorCode::AlreadyExists) <==> old(self).config is Some,
            old(self).config is None && platform_fee_bps > MAX_FEE_BPS ==> r == Err::<(),
                ErrorCode,
            >(ErrorCode::FeeTooHigh),
            old(self).config is None && platform_fee_bps <= MAX_FEE_BPS && referral_fee_bps
                > MAX_FEE_BPS ==> r == Err::<(), ErrorCode>(ErrorCode::FeeTooHigh),
            r is Ok <==> old(self).config is None && platform_fee_bps <= MAX_FEE_BPS
                && referral_fee_bps <= MAX_FEE_BPS,
            r is Ok ==> *final(self) == (AgentMemory {
                config: Some(
                    PlatformConfig {
                        authority,
                        treasury,
                        platform_fee_bps,
                        referral_fee_bps,
                    },
                ),
                ..*old(self)
            }),
    {
        if self.config.is_some() {
            return Err(ErrorCode::AlreadyExists);
        }
        if platform_fee_bps > MAX_FEE_BPS {
            return Err(ErrorCode::FeeTooHigh);
        }
        if referral_fee_bps > MAX_FEE_BPS {
            return Err(ErrorCode::FeeTooHigh);
        }
        self.config = Some(
            PlatformConfig { authority, treasury, platform_fee_bps, referral_fee_bps },
        );
        Ok(())
    }

    /// Register a new agent identity.
    ///
    /// Fails with `AlreadyExists` if a record already occupies the derived
    /// key, and with `AgentIdTooLong` (checked in that order) if the
    /// identifier exceeds 64 bytes. On success a fresh record is appended
    /// with reputation and counters at zero and the caller recorded as the
    /// owning authority.
    pub fn initialize_agent(&mut self, agent_id: String, authority: Address) -> (r: Result<
        (),
        ErrorCode,
    >)
        requires
            old(self).wf(),
        ensures
            final(self).wf(),
            r is Err ==> *final(self) == *old(self),
            r == Err::<(), ErrorCode>(ErrorCode::AlreadyExists) <==> old(self).has_agent(
                agent_id@,
            ),
            !old(self).has_agent(agent_id@) && byte_len(agent_id@) > MAX_ID_BYTES ==> r
                == Err::<(), ErrorCode>(ErrorCode::AgentIdTooLong),
            r is Ok <==> !old(self).has_agent(agent_id@) && byte_len(agent_id@) <= MAX_ID_BYTES,
            r is Ok ==> final(self).agents@ == old(self).agents@.push(
                (AgentAccount {
                    agent_id,
                    authority,
                    reputation: 0,
                    total_logs: 0,
                    total_attestations: 0,
                }),
            ),
            r is Ok ==> final(self).config == old(self).config
                && final(self).logs@ == old(self).logs@
                && final(self).attestations@ == old(self).attestations@
                && final(self).modules@ == old(self).modules@
                && final(self).purchases@ == old(self).purchases@,
    {
        if self.find_agent(&agent_id).is_some() {
            return Err(ErrorCode::AlreadyExists);
        }
        if agent_id.as_str().as_bytes().len() > MAX_ID_BYTES {
            return Err(ErrorCode::AgentIdTooLong);
        }
        self.agents.push(
            AgentAccount { agent_id, authority, reputation: 0, total_logs: 0, total_attestations: 0 },
        );
        Ok(())
    }
}

/// In a well-formed store, any index whose agent carries the identifier is
/// the index `agent_at` names: agent identifiers are unique.
pub proof fn lemma_agent_index_unique(s: AgentMemory, id: Seq<char>, k: int)
    requires
        s.wf(),
        0 <= k < s.agents@.len(),
        s.agents@[k].agent_id@ == id,
    ensures
        s.agent_at(id) == k,
        s.has_agent(id),
{
    assert(s.has_agent(id));
    let j = s.agent_at(id);
    if j != k {
        assert(s.agents@[j].agent_id@ != s.agents@[k].agent_id@);
    }
}

/// Decision-log keys are unique in a well-formed store: any index whose log
/// carries the key is the index `log_at` names.
pub proof fn lemma_log_index_unique(s: AgentMemory, agent_id: Seq<char>, logged_at: i64, k: int)
    requires
        s.wf(),
        0 <= k < s.logs@.len(),
        s.logs@[k].agent_id@ == agent_id,
        s.logs@[k].timestamp == logged_at,
    ensures
        s.log_at(agent_id, logged_at) == k,
        s.has_log(agent_id, logged_at),
{
    assert(s.has_log(agent_id, logged_at));
    let j = s.log_at(agent_id, logged_at);
    if j != k {
        assert(!(s.logs@[j].agent_id@ == s.logs@[k].agent_id@ && s.logs@[j].timestamp
            == s.logs@[k].timestamp));
    }
}

} // verus!
