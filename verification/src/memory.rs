//! The decision log and attestation state machine.
//!
//! Each decision moves through two states: `Logged`, then — at most once —
//! `Attested`, which is terminal. Logging commits to the decision through
//! three hashes (`input_hash`, `logic_hash` and the `merkle_root` binding
//! them) without storing the raw payloads; attesting records the outcome
//! hash and adjusts the agent's reputation, clamped at zero per step.

use vstd::prelude::*;

use crate::account::{Address, AgentAccount, Attestation, MemoryLog};
use crate::errors::ErrorCode;
use crate::hashing::{hash_payload, merkle_root_of};
use crate::state::{lemma_agent_index_unique, lemma_log_index_unique, AgentMemory};

verus! {

use vstd::string::StringSliceAdditionalSpecFns;

use crate::account::{agent_wf, byte_len, MAX_PAYLOAD_BYTES};
use crate::hashing::keccak_of;

/// Notification emitted when a decision is logged.
#[derive(Debug, PartialEq, Eq)]
pub struct DecisionLogged {
    pub agent_id: String,
    pub merkle_root: [u8; 32],
    pub timestamp: i64,
}

/// Notification emitted when an outcome is attested.
#[derive(Debug, PartialEq, Eq)]
pub struct OutcomeAttested {
    pub agent_id: String,
    pub logged_at: i64,
    pub success: bool,
    pub new_reputation: u64,
}

/// The per-step reputation rule: add the delta, then clamp at zero. The
/// clamp applies after every single step, not once over the running sum.
pub open spec fn clamped_reputation(reputation: u64, score_delta: i64) -> int {
    if reputation + score_delta >= 0 {
        reputation + score_delta
    } else {
        0
    }
}

/// The reputation law: whatever the delta, the clamped result is never
/// negative, and it never exceeds `i64::MAX` when the unclamped sum fits in
/// an `i64` — so the stored reputation always fits the signed range the
/// next step casts it into.
pub proof fn lemma_reputation_stays_in_range(reputation: u64, score_delta: i64)
    requires
        reputation + score_delta <= i64::MAX,
    ensures
        0 <= clamped_reputation(reputation, score_delta) <= i64::MAX,
{
}

impl AgentMemory {
    /// Append a decision record for an agent.
    ///
    /// Rejects, in this order: an unknown agent (`NotFound`), a caller other
    /// than the agent's registered authority (`Unauthorized`), a (agent,
    /// time) key that already holds a record (`AlreadyExists`), an input
    /// payload over 256 bytes, a logic payload over 256 bytes, and a
    /// `total_logs` counter that can no longer be incremented. On success the
    /// new record stores `input_hash = H(input)`, `logic_hash = H(logic)` and
    /// `merkle_root = H(input_hash ‖ logic_hash)`, is not yet attested, and
    /// the agent's `total_logs` grows by one.
    pub fn log_decision(
        &mut self,
        agent_id: &String,
        caller: Address,
        input_data: &str,
        logic_data: &str,
        now: i64,
    ) -> (r: Result<DecisionLogged, ErrorCode>)
        requires
            old(self).wf(),
        ensures
            final(self).wf(),
            r is Err ==> *final(self) == *old(self),
            r == Err::<DecisionLogged, ErrorCode>(ErrorCode::NotFound) <==> !old(
                self,
            ).has_agent(agent_id@),
            old(self).has_agent(agent_id@) && caller != old(self).agents@[old(self).agent_at(
                agent_id@,
            )].authority ==> r == Err::<DecisionLogged, ErrorCode>(ErrorCode::Unauthorized),
            old(self).has_agent(agent_id@) && caller == old(self).agents@[old(self).agent_at(
                agent_id@,
            )].authority && old(self).has_log(agent_id@, now) ==> r == Err::<
                DecisionLogged,
                ErrorCode,
            >(ErrorCode::AlreadyExists),
            old(self).has_agent(agent_id@) && caller == old(self).agents@[old(self).agent_at(
                agent_id@,
            )].authority && !old(self).has_log(agent_id@, now) && byte_len(input_data@)
                > MAX_PAYLOAD_BYTES ==> r == Err::<DecisionLogged, ErrorCode>(
                ErrorCode::InputTooLong,
            ),
            old(self).has_agent(agent_id@) && caller == old(self).agents@[old(self).agent_at(
                agent_id@,
            )].authority && !old(self).has_log(agent_id@, now) && byte_len(input_data@)
                <= MAX_PAYLOAD_BYTES && byte_len(logic_data@) > MAX_PAYLOAD_BYTES ==> r
                == Err::<DecisionLogged, ErrorCode>(ErrorCode::LogicTooLong),
            old(self).has_agent(agent_id@) && caller == old(self).agents@[old(self).agent_at(
                agent_id@,
            )].authority && !old(self).has_log(agent_id@, now) && byte_len(input_data@)
                <= MAX_PAYLOAD_BYTES && byte_len(logic_data@) <= MAX_PAYLOAD_BYTES && old(
                self,
            ).agents@[old(self).agent_at(agent_id@)].total_logs == u64::MAX ==> r == Err::<
                DecisionLogged,
                ErrorCode,
            >(ErrorCode::ArithmeticOverflow),
            r is Ok <==> old(self).has_agent(agent_id@) && caller == old(self).agents@[old(
                self,
            ).agent_at(agent_id@)].authority && !old(self).has_log(agent_id@, now) && byte_len(
                input_data@,
            ) <= MAX_PAYLOAD_BYTES && byte_len(logic_data@) <= MAX_PAYLOAD_BYTES && old(
                self,
            ).agents@[old(self).agent_at(agent_id@)].total_logs < u64::MAX,
            r is Ok ==> ({
                let lg = final(self).logs@.last();
                &&& final(self).logs@ == old(self).logs@.push(lg)
                &&& lg.agent_id@ == agent_id@
                &&& lg.input_hash@ == keccak_of(input_data.spec_bytes())
                &&& lg.logic_hash@ == keccak_of(logic_data.spec_bytes())
                &&& lg.merkle_root@ == keccak_of(lg.input_hash@ + lg.logic_hash@)
                &&& lg.timestamp == now
                &&& !lg.is_attested
            }),
            r is Ok ==> final(self).agents@ == old(self).agents@.update(
                old(self).agent_at(agent_id@),
                (AgentAccount {
                    total_logs: (old(self).agents@[old(self).agent_at(agent_id@)].total_logs
                        + 1) as u64,
                    ..old(self).agents@[old(self).agent_at(agent_id@)]
                }),
            ),
            r is Ok ==> final(self).config == old(self).config
                && final(self).attestations@ == old(self).attestations@
                && final(self).modules@ == old(self).modules@
                && final(self).purchases@ == old(self).purchases@,
            r matches Ok(ev) ==> ev.agent_id@ == agent_id@ && ev.timestamp == now
                && ev.merkle_root@ == keccak_of(
                keccak_of(input_data.spec_bytes()) + keccak_of(logic_data.spec_bytes()),
            ),
    {
        let found = self.find_agent(agent_id);
        let a = match found {
            Some(a) => a,
            None => {
                return Err(ErrorCode::NotFound);
            },
        };
        proof {
            lemma_agent_index_unique(*self, agent_id@, a as int);
        }
        if self.agents[a].authority != caller {
            return Err(ErrorCode::Unauthorized);
        }
        if self.find_log(agent_id, now).is_some() {
            return Err(ErrorCode::AlreadyExists);
        }
        if input_data.as_bytes().len() > MAX_PAYLOAD_BYTES {
            return Err(ErrorCode::InputTooLong);
        }
        if logic_data.as_bytes().len() > MAX_PAYLOAD_BYTES {
            return Err(ErrorCode::LogicTooLong);
        }
        let new_total_logs = match self.agents[a].total_logs.checked_add(1) {
            Some(v) => v,
            None => {
                return Err(ErrorCode::ArithmeticOverflow);
            },
        };

        let input_hash = hash_payload(input_data);
        let logic_hash = hash_payload(logic_data);
        let merkle_root = merkle_root_of(&input_hash, &logic_hash);

        let ghost pre = *self;
        self.logs.push(
            MemoryLog {
                agent_id: agent_id.clone(),
                input_hash,
                logic_hash,
                merkle_root,
                timestamp: now,
                is_attested: false,
            },
        );
        let ag = &mut self.agents[a];
        ag.total_logs = new_total_logs;
        proof {
            lemma_wf_after_log_push(pre, *self, agent_id@, now, a as int);
        }
        Ok(DecisionLogged { agent_id: agent_id.clone(), merkle_root, timestamp: now })
    }

    /// Finalize a decision log with its outcome, exactly once.
    ///
    /// Rejects, in this order: an unknown agent (`NotFound`), an unknown
    /// (agent, time) log key (`NotFound`), a log that was already attested
    /// (`AlreadyAttested` — the one-shot rule), an outcome payload over 256
    /// bytes, a score delta that overflows the signed reputation sum
    /// (`ReputationOverflow`), and a `total_attestations` counter that can no
    /// longer be incremented. On success the log is marked attested, an
    /// attestation record with `outcome_hash = H(outcome)` is appended, and
    /// the agent's reputation becomes `max(0, reputation + score_delta)` —
    /// clamped at this step, not over the running sum.
    pub fn attest_outcome(
        &mut self,
        agent_id: &String,
        logged_at: i64,
        outcome_data: &str,
        success: bool,
        score_delta: i64,
        now: i64,
    ) -> (r: Result<OutcomeAttested, ErrorCode>)
        requires
            old(self).wf(),
        ensures
            final(self).wf(),
            r is Err ==> *final(self) == *old(self),
            r == Err::<OutcomeAttested, ErrorCode>(ErrorCode::NotFound) <==> !old(
                self,
            ).has_agent(agent_id@) || !old(self).has_log(agent_id@, logged_at),
            old(self).has_agent(agent_id@) && old(self).has_log(agent_id@, logged_at) && old(
                self,
            ).log_attested(agent_id@, logged_at) ==> r == Err::<OutcomeAttested, ErrorCode>(
                ErrorCode::AlreadyAttested,
            ),
            old(self).has_agent(agent_id@) && old(self).has_log(agent_id@, logged_at) && !old(
                self,
            ).log_attested(agent_id@, logged_at) && byte_len(outcome_data@)
                > MAX_PAYLOAD_BYTES ==> r == Err::<OutcomeAttested, ErrorCode>(
                ErrorCode::OutcomeTooLong,
            ),
            old(self).has_agent(agent_id@) && old(self).has_log(agent_id@, logged_at) && !old(
                self,
            ).log_attested(agent_id@, logged_at) && byte_len(outcome_data@)
                <= MAX_PAYLOAD_BYTES && old(self).agents@[old(self).agent_at(
                agent_id@,
            )].reputation + score_delta > i64::MAX ==> r == Err::<OutcomeAttested, ErrorCode>(
                ErrorCode::ReputationOverflow,
            ),
            old(self).has_agent(agent_id@) && old(self).has_log(agent_id@, logged_at) && !old(
                self,
            ).log_attested(agent_id@, logged_at) && byte_len(outcome_data@)
                <= MAX_PAYLOAD_BYTES && old(self).agents@[old(self).agent_at(
                agent_id@,
            )].reputation + score_delta <= i64::MAX && old(self).agents@[old(self).agent_at(
                agent_id@,
            )].total_attestations == u64::MAX ==> r == Err::<OutcomeAttested, ErrorCode>(
                ErrorCode::ArithmeticOverflow,
            ),
            r is Ok <==> old(self).has_agent(agent_id@) && old(self).has_log(
                agent_id@,
                logged_at,
            ) && !old(self).log_attested(agent_id@, logged_at) && byte_len(outcome_data@)
                <= MAX_PAYLOAD_BYTES && old(self).agents@[old(self).agent_at(
                agent_id@,
            )].reputation + score_delta <= i64::MAX && old(self).agents@[old(self).agent_at(
                agent_id@,
            )].total_attestations < u64::MAX,
            r is Ok ==> final(self).logs@ == old(self).logs@.update(
                old(self).log_at(agent_id@, logged_at),
                (MemoryLog {
                    is_attested: true,
                    ..old(self).logs@[old(self).log_at(agent_id@, logged_at)]
                }),
            ),
            r is Ok ==> final(self).log_attested(agent_id@, logged_at),
            r is Ok ==> ({
                let at = final(self).attestations@.last();
                &&& final(self).attestations@ == old(self).attestations@.push(at)
                &&& at.agent_id@ == agent_id@
                &&& at.logged_at == logged_at
                &&& at.outcome_hash@ == keccak_of(outcome_data.spec_bytes())
                &&& at.success == success
                &&& at.score_delta == score_delta
                &&& at.timestamp == now
            }),
            r is Ok ==> final(self).agents@ == old(self).agents@.update(
                old(self).agent_at(agent_id@),
                (AgentAccount {
                    reputation: clamped_reputation(
                        old(self).agents@[old(self).agent_at(agent_id@)].reputation,
                        score_delta,
                    ) as u64,
                    total_attestations: (old(self).agents@[old(self).agent_at(
                        agent_id@,
                    )].total_attestations + 1) as u64,
                    ..old(self).agents@[old(self).agent_at(agent_id@)]
                }),
            ),
            r is Ok ==> final(self).config == old(self).config
                && final(self).modules@ == old(self).modules@
                && final(self).purchases@ == old(self).purchases@,
            r matches Ok(ev) ==> ev.agent_id@ == agent_id@ && ev.logged_at == logged_at
                && ev.success == success && ev.new_reputation == clamped_reputation(
                old(self).agents@[old(self).agent_at(agent_id@)].reputation,
                score_delta,
            ),
    {
        let found_agent = self.find_agent(agent_id);
        let a = match found_agent {
            Some(a) => a,
            None => {
                return Err(ErrorCode::NotFound);
            },
        };
        proof {
            lemma_agent_index_unique(*self, agent_id@, a as int);
        }
        let found_log = self.find_log(agent_id, logged_at);
        let l = match found_log {
            Some(l) => l,
            None => {
                return Err(ErrorCode::NotFound);
            },
        };
        proof {
            lemma_log_index_unique(*self, agent_id@, logged_at, l as int);
        }
        if self.logs[l].is_attested {
            return Err(ErrorCode::AlreadyAttested);
        }
        if outcome_data.as_bytes().len() > MAX_PAYLOAD_BYTES {
            return Err(ErrorCode::OutcomeTooLong);
        }
        proof {
            assert(agent_wf(self.agents@[a as int]));
        }
        let reputation_before = self.agents[a].reputation as i64;
        let new_reputation_signed = match reputation_before.checked_add(score_delta) {
            Some(v) => v,
            None => {
                return Err(ErrorCode::ReputationOverflow);
            },
        };
        let new_reputation: u64 = if new_reputation_signed < 0 {
            0
        } else {
            new_reputation_signed as u64
        };
        let new_total_attestations = match self.agents[a].total_attestations.checked_add(1) {
            Some(v) => v,
            None => {
                return Err(ErrorCode::ArithmeticOverflow);
            },
        };

        let outcome_hash = hash_payload(outcome_data);

        let ghost pre = *self;
        let lg = &mut self.logs[l];
        lg.is_attested = true;
        self.attestations.push(
            Attestation {
                agent_id: agent_id.clone(),
                logged_at,
                outcome_hash,
                success,
                score_delta,
                timestamp: now,
            },
        );
        let ag = &mut self.agents[a];
        ag.reputation = new_reputation;
        ag.total_attestations = new_total_attestations;
        proof {
            lemma_wf_after_attest(pre, *self, agent_id@, logged_at, a as int, l as int);
        }
        Ok(
            OutcomeAttested {
                agent_id: agent_id.clone(),
                logged_at,
                success,
                new_reputation,
            },
        )
    }
}

/// Pushing a fresh, unattested log with an unoccupied key and bumping the
/// owning agent's log counter preserves the global invariant.
proof fn lemma_wf_after_log_push(
    pre: AgentMemory,
    post: AgentMemory,
    agent_id: Seq<char>,
    now: i64,
    a: int,
)
    requires
        pre.wf(),
        0 <= a < pre.agents@.len(),
        !pre.has_log(agent_id, now),
        post.logs@.len() == pre.logs@.len() + 1,
        post.logs@ == pre.logs@.push(post.logs@.last()),
        post.logs@.last().agent_id@ == agent_id,
        post.logs@.last().timestamp == now,
        !post.logs@.last().is_attested,
        post.agents@ == pre.agents@.update(
            a,
            (AgentAccount { total_logs: post.agents@[a].total_logs, ..pre.agents@[a] }),
        ),
        post.config == pre.config,
        post.attestations@ == pre.attestations@,
        post.modules@ == pre.modules@,
        post.purchases@ == pre.purchases@,
    ensures
        post.wf(),
{
    let n = pre.logs@.len() as int;
    assert forall|i: int, j: int|
        0 <= i < j < post.logs@.len() implies !(post.logs@[i].agent_id@
        == post.logs@[j].agent_id@ && post.logs@[i].timestamp == post.logs@[j].timestamp) by {
        if j < n {
            assert(post.logs@[i] == pre.logs@[i]);
            assert(post.logs@[j] == pre.logs@[j]);
        } else {
            assert(post.logs@[i] == pre.logs@[i]);
            assert(!(pre.logs@[i].agent_id@ == agent_id && pre.logs@[i].timestamp == now));
        }
    }
    assert forall|i: int|
        0 <= i < post.attestations@.len() implies post.log_attested(
        (#[trigger] post.attestations@[i]).agent_id@,
        post.attestations@[i].logged_at,
    ) by {
        let key_agent = post.attestations@[i].agent_id@;
        let key_at = post.attestations@[i].logged_at;
        assert(pre.log_attested(key_agent, key_at));
        let w = pre.log_at(key_agent, key_at);
        assert(post.logs@[w] == pre.logs@[w]);
        lemma_attested_from_witness(post, key_agent, key_at, w);
    }
    assert forall|i: int|
        0 <= i < post.logs@.len() && (#[trigger] post.logs@[i]).is_attested implies post
        .has_attestation(post.logs@[i].agent_id@, post.logs@[i].timestamp) by {
        assert(post.logs@[i] == pre.logs@[i]);
        assert(pre.has_attestation(pre.logs@[i].agent_id@, pre.logs@[i].timestamp));
    }
}

/// If some index holds a log with the key and the attested flag, then the
/// key's log is attested — provided log keys are pairwise distinct.
proof fn lemma_attested_from_witness(s: AgentMemory, agent_id: Seq<char>, logged_at: i64, w: int)
    requires
        forall|i: int, j: int|
            #![trigger s.logs@[i], s.logs@[j]]
            0 <= i < j < s.logs@.len() ==> !(s.logs@[i].agent_id@ == s.logs@[j].agent_id@
                && s.logs@[i].timestamp == s.logs@[j].timestamp),
        0 <= w < s.logs@.len(),
        s.logs@[w].agent_id@ == agent_id,
        s.logs@[w].timestamp == logged_at,
        s.logs@[w].is_attested,
    ensures
        s.log_attested(agent_id, logged_at),
{
    assert(s.has_log(agent_id, logged_at));
    let j = s.log_at(agent_id, logged_at);
    if j != w {
        assert(!(s.logs@[j].agent_id@ == s.logs@[w].agent_id@ && s.logs@[j].timestamp
            == s.logs@[w].timestamp));
    }
}

/// Marking an unattested log attested, pushing its attestation, and updating
/// the owning agent's reputation and counter preserves the global invariant.
proof fn lemma_wf_after_attest(
    pre: AgentMemory,
    post: AgentMemory,
    agent_id: Seq<char>,
    logged_at: i64,
    a: int,
    l: int,
)
    requires
        pre.wf(),
        0 <= a < pre.agents@.len(),
        0 <= l < pre.logs@.len(),
        pre.logs@[l].agent_id@ == agent_id,
        pre.logs@[l].timestamp == logged_at,
        !pre.logs@[l].is_attested,
        post.agents@[a].reputation <= i64::MAX,
        post.agents@ == pre.agents@.update(
            a,
            (AgentAccount {
                reputation: post.agents@[a].reputation,
                total_attestations: post.agents@[a].total_attestations,
                ..pre.agents@[a]
            }),
        ),
        post.logs@ == pre.logs@.update(l, (MemoryLog { is_attested: true, ..pre.logs@[l] })),
        post.attestations@.len() == pre.attestations@.len() + 1,
        post.attestations@ == pre.attestations@.push(post.attestations@.last()),
        post.attestations@.last().agent_id@ == agent_id,
        post.attestations@.last().logged_at == logged_at,
        post.config == pre.config,
        post.modules@ == pre.modules@,
        post.purchases@ == pre.purchases@,
    ensures
        post.wf(),
        post.log_attested(agent_id, logged_at),
{
    let n = pre.attestations@.len() as int;
    assert forall|i: int, j: int|
        0 <= i < j < post.logs@.len() implies !(post.logs@[i].agent_id@
        == post.logs@[j].agent_id@ && post.logs@[i].timestamp == post.logs@[j].timestamp) by {
        assert(post.logs@[i].agent_id@ == pre.logs@[i].agent_id@ && post.logs@[i].timestamp
            == pre.logs@[i].timestamp);
        assert(post.logs@[j].agent_id@ == pre.logs@[j].agent_id@ && post.logs@[j].timestamp
            == pre.logs@[j].timestamp);
    }
    // No old attestation carries the newly attested key: its log was not
    // yet attested before this step.
    assert forall|i: int| 0 <= i < n implies !((#[trigger] pre.attestations@[i]).agent_id@
        == agent_id && pre.attestations@[i].logged_at == logged_at) by {
        if pre.attestations@[i].agent_id@ == agent_id && pre.attestations@[i].logged_at
            == logged_at {
            assert(pre.log_attested(agent_id, logged_at));
            lemma_log_index_unique(pre, agent_id, logged_at, l);
        }
    }
    assert forall|i: int, j: int|
        0 <= i < j < post.attestations@.len() implies !(post.attestations@[i].agent_id@
        == post.attestations@[j].agent_id@ && post.attestations@[i].logged_at
        == post.attestations@[j].logged_at) by {
        if j < n {
            assert(post.attestations@[i] == pre.attestations@[i]);
            assert(post.attestations@[j] == pre.attestations@[j]);
        } else {
            assert(post.attestations@[i] == pre.attestations@[i]);
        }
    }
    // Forward link: every attestation's log is attested afterwards.
    assert forall|i: int|
        0 <= i < post.attestations@.len() implies post.log_attested(
        (#[trigger] post.attestations@[i]).agent_id@,
        post.attestations@[i].logged_at,
    ) by {
        let key_agent = post.attestations@[i].agent_id@;
        let key_at = post.attestations@[i].logged_at;
        if i < n {
            assert(post.attestations@[i] == pre.attestations@[i]);
            assert(pre.log_attested(key_agent, key_at));
            let w = pre.log_at(key_agent, key_at);
            if w == l {
                lemma_attested_from_witness(post, key_agent, key_at, l);
            } else {
                assert(post.logs@[w] == pre.logs@[w]);
                lemma_attested_from_witness(post, key_agent, key_at, w);
            }
        } else {
            lemma_attested_from_witness(post, key_agent, key_at, l);
        }
    }
    // Reverse link: every attested log has its attestation afterwards.
    assert forall|i: int|
        0 <= i < post.logs@.len() && (#[trigger] post.logs@[i]).is_attested implies post
        .has_attestation(post.logs@[i].agent_id@, post.logs@[i].timestamp) by {
        if i == l {
            assert(post.attestations@.last().agent_id@ == post.logs@[i].agent_id@);
        } else {
            assert(post.logs@[i] == pre.logs@[i]);
            assert(pre.has_attestation(pre.logs@[i].agent_id@, pre.logs@[i].timestamp));
            let w = choose|w: int|
                0 <= w < pre.attestations@.len() && pre.attestations@[w].agent_id@
                    == pre.logs@[i].agent_id@ && pre.attestations@[w].logged_at
                    == pre.logs@[i].timestamp;
            assert(post.attestations@[w] == pre.attestations@[w]);
        }
    }
    lemma_attested_from_witness(post, agent_id, logged_at, l);
}

} // verus!
