//! Identity registry: verified agent identities from pluggable providers.
//!
//! Credential verification here is a structural placeholder, exactly as the
//! protocol defines it: a credential is accepted when it is not all zeros,
//! which is not cryptographically meaningful. Real verification belongs to
//! the identity provider; this registry only records its outcome.

use vstd::prelude::*;

use crate::account::Address;

verus! {

/// Which provider vouched for an identity.
pub enum IdentityProvider {
    /// Verified agent identity from the SAID registry.
    SAID,
    /// Plain key-based identity, accepted without verification.
    Pubkey,
    /// An extensible custom provider, named by the carried string.
    Custom { provider: String },
}

/// Failure reasons of the identity registry.
#[derive(Clone, Copy, PartialEq, Eq, Structural, Debug)]
pub enum ErrorCode {
    /// The SAID credential failed verification.
    InvalidSAIDCredential,
    /// The custom-provider credential failed verification.
    InvalidCredential,
    /// The identity's expiry time has passed. Kept for consumers that map
    /// [`VerifiedIdentity::is_valid`] to a failure reason.
    IdentityExpired,
    /// The identity was revoked. Kept for the same consumers.
    IdentityNotActive,
    /// An identity record already exists for the agent.
    AlreadyExists,
    /// No identity record exists for the agent.
    NotFound,
}

/// One verified identity per agent, keyed by the agent's address.
pub struct VerifiedIdentity {
    pub agent: Address,
    pub provider: IdentityProvider,
    pub credential: [u8; 32],
    pub verified_at: i64,
    pub expires_at: i64,
    pub is_active: bool,
}

/// A credential passes the placeholder check when any byte is non-zero.
pub open spec fn credential_nonzero(c: Seq<u8>) -> bool {
    exists|i: int| 0 <= i < c.len() && c[i] != 0
}

/// An identity is valid when it is active and not past a non-zero expiry.
pub open spec fn identity_valid(v: VerifiedIdentity, current_time: i64) -> bool {
    v.is_active && !(v.expires_at > 0 && current_time > v.expires_at)
}

impl VerifiedIdentity {
    /// Whether this identity is currently valid: active, and either without
    /// an expiry (zero means never expires) or not yet past it.
    pub fn is_valid(&self, current_time: i64) -> (r: bool)
        ensures
            r == identity_valid(*self, current_time),
    {
        if !self.is_active {
            return false;
        }
        if self.expires_at > 0 && current_time > self.expires_at {
            return false;
        }
        true
    }

    /// The placeholder SAID credential check: accept any credential that is
    /// not all zeros. Not cryptographically meaningful.
    pub fn verify_said_credential(credential: &[u8; 32]) -> (r: Result<bool, ErrorCode>)
        ensures
            r == Ok::<bool, ErrorCode>(credential_nonzero(credential@)),
    {
        let mut i: usize = 0;
        while i < 32
            invariant
                i <= 32,
                forall|j: int| 0 <= j < i ==> credential@[j] == 0,
            decreases 32 - i,
        {
            if credential[i] != 0 {
                return Ok(true);
            }
            i = i + 1;
        }
        Ok(false)
    }
}

/// The keyed identity store: at most one record per agent address.
pub struct IdentityRegistry {
    pub identities: Vec<VerifiedIdentity>,
}

impl IdentityRegistry {
    /// An identity record for this agent exists.
    pub open spec fn has_identity(self, agent: Address) -> bool {
        exists|i: int| 0 <= i < self.identities@.len() && self.identities@[i].agent == agent
    }

    /// The index of the agent's identity record.
    pub open spec fn identity_at(self, agent: Address) -> int {
        choose|i: int| 0 <= i < self.identities@.len() && self.identities@[i].agent == agent
    }

    /// Agent addresses are unique across the registry.
    pub open spec fn wf(self) -> bool {
        forall|i: int, j: int|
            #![trigger self.identities@[i], self.identities@[j]]
            0 <= i < j < self.identities@.len() ==> self.identities@[i].agent
                != self.identities@[j].agent
    }

    /// An empty registry.
    pub fn new() -> (r: IdentityRegistry)
        ensures
            r.wf(),
            r.identities@.len() == 0,
    {
        IdentityRegistry { identities: Vec::new() }
    }

    /// Look up an identity record by agent address.
    pub fn find_identity(&self, agent: Address) -> (r: Option<usize>)
        ensures
            match r {
                Some(i) => i < self.identities@.len() && self.identities@[i as int].agent
                    == agent,
                None => !self.has_identity(agent),
            },
    {
        let n = self.identities.len();
        for i in 0..n
            invariant
                n == self.identities@.len(),
                forall|j: int| 0 <= j < i ==> (#[trigger] self.identities@[j]).agent != agent,
        {
            if self.identities[i].agent == agent {
                return Some(i);
            }
        }
        None
    }

    /// Register an agent identity after verifying its credential.
    ///
    /// Rejects, in this order: an agent that already has a record
    /// (`AlreadyExists`), an all-zero credential under the SAID provider
    /// (`InvalidSAIDCredential`), and an all-zero credential under a custom
    /// provider (`InvalidCredential`). A plain key identity needs no
    /// verification. On success the record is stored active, verified now,
    /// with the given expiry (zero meaning never).
    pub fn initialize_with_identity(
        &mut self,
        agent: Address,
        provider: IdentityProvider,
        credential: [u8; 32],
        expires_at: i64,
        now: i64,
    ) -> (r: Result<(), ErrorCode>)
        requires
            old(self).wf(),
        ensures
            final(self).wf(),
            r is Err ==> *final(self) == *old(self),
            r == Err::<(), ErrorCode>(ErrorCode::AlreadyExists) <==> old(self).has_identity(
                agent,
            ),
            !old(self).has_identity(agent) && provider is SAID && !credential_nonzero(
                credential@,
            ) ==> r == Err::<(), ErrorCode>(ErrorCode::InvalidSAIDCredential),
            !old(self).has_identity(agent) && provider is Custom && !credential_nonzero(
                credential@,
            ) ==> r == Err::<(), ErrorCode>(ErrorCode::InvalidCredential),
            r is Ok <==> !old(self).has_identity(agent) && (provider is Pubkey
                || credential_nonzero(credential@)),
            r is Ok ==> ({
                let v = final(self).identities@.last();
                &&& final(self).identities@ == old(self).identities@.push(v)
                &&& v.agent == agent
                &&& v.credential@ == credential@
                &&& v.verified_at == now
                &&& v.expires_at == expires_at
                &&& v.is_active
            }),
    {
        if self.find_identity(agent).is_some() {
            return Err(ErrorCode::AlreadyExists);
        }
        match &provider {
            IdentityProvider::SAID => {
                let ok = match VerifiedIdentity::verify_said_credential(&credential) {
                    Ok(b) => b,
                    Err(e) => {
                        return Err(e);
                    },
                };
                if !ok {
                    return Err(ErrorCode::InvalidSAIDCredential);
                }
            },
            IdentityProvider::Pubkey => {},
            IdentityProvider::Custom { .. } => {
                let ok = match VerifiedIdentity::verify_said_credential(&credential) {
                    Ok(b) => b,
                    Err(e) => {
                        return Err(e);
                    },
                };
                if !ok {
                    return Err(ErrorCode::InvalidCredential);
                }
            },
        }
        self.identities.push(
            VerifiedIdentity {
                agent,
                provider,
                credential,
                verified_at: now,
                expires_at,
                is_active: true,
            },
        );
        Ok(())
    }

    /// Disable an agent's identity. Fails only when no record exists; the
    /// record itself is otherwise untouched.
    pub fn revoke(&mut self, agent: Address) -> (r: Result<(), ErrorCode>)
        requires
            old(self).wf(),
        ensures
            final(self).wf(),
            r is Err ==> *final(self) == *old(self),
            r == Err::<(), ErrorCode>(ErrorCode::NotFound) <==> !old(self).has_identity(agent),
            r is Ok <==> old(self).has_identity(agent),
            r is Ok ==> final(self).identities@ == old(self).identities@.update(
                old(self).identity_at(agent),
                (VerifiedIdentity {
                    is_active: false,
                    ..old(self).identities@[old(self).identity_at(agent)]
                }),
            ),
    {
        let found = self.find_identity(agent);
        let k = match found {
            Some(k) => k,
            None => {
                return Err(ErrorCode::NotFound);
            },
        };
        proof {
            lemma_identity_index_unique(*self, agent, k as int);
        }
        let v = &mut self.identities[k];
        v.is_active = false;
        Ok(())
    }

    /// Extend an identity: store the new credential and expiry, stamp the
    /// verification time and reactivate.
    ///
    /// Rejects a missing record (`NotFound`) and, under the SAID provider,
    /// an all-zero replacement credential (`InvalidSAIDCredential`); other
    /// providers renew without verification.
    pub fn renew(
        &mut self,
        agent: Address,
        new_expiry: i64,
        new_credential: [u8; 32],
        now: i64,
    ) -> (r: Result<(), ErrorCode>)
        requires
            old(self).wf(),
        ensures
            final(self).wf(),
            r is Err ==> *final(self) == *old(self),
            r == Err::<(), ErrorCode>(ErrorCode::NotFound) <==> !old(self).has_identity(agent),
            old(self).has_identity(agent) && old(self).identities@[old(self).identity_at(
                agent,
            )].provider is SAID && !credential_nonzero(new_credential@) ==> r == Err::<
                (),
                ErrorCode,
            >(ErrorCode::InvalidSAIDCredential),
            r is Ok <==> old(self).has_identity(agent) && (!(old(self).identities@[old(
                self,
            ).identity_at(agent)].provider is SAID) || credential_nonzero(new_credential@)),
            r is Ok ==> ({
                let v = final(self).identities@[old(self).identity_at(agent)];
                &&& final(self).identities@ == old(self).identities@.update(
                    old(self).identity_at(agent),
                    v,
                )
                &&& v.agent == agent
                &&& v.credential@ == new_credential@
                &&& v.expires_at == new_expiry
                &&& v.verified_at == now
                &&& v.is_active
                &&& v.provider == old(self).identities@[old(self).identity_at(agent)].provider
            }),
    {
        let found = self.find_identity(agent);
        let k = match found {
            Some(k) => k,
            None => {
                return Err(ErrorCode::NotFound);
            },
        };
        proof {
            lemma_identity_index_unique(*self, agent, k as int);
        }
        let is_said = match &self.identities[k].provider {
            IdentityProvider::SAID => true,
            _ => false,
        };
        if is_said {
            let ok = match VerifiedIdentity::verify_said_credential(&new_credential) {
                Ok(b) => b,
                Err(e) => {
                    return Err(e);
                },
            };
            if !ok {
                return Err(ErrorCode::InvalidSAIDCredential);
            }
        }
        let v = &mut self.identities[k];
        v.credential = new_credential;
        v.expires_at = new_expiry;
        v.verified_at = now;
        v.is_active = true;
        Ok(())
    }
}

/// In a well-formed registry, any index holding the agent's record is the
/// index `identity_at` names: agent addresses are unique.
pub proof fn lemma_identity_index_unique(s: IdentityRegistry, agent: Address, k: int)
    requires
        s.wf(),
        0 <= k < s.identities@.len(),
        s.identities@[k].agent == agent,
    ensures
        s.identity_at(agent) == k,
        s.has_identity(agent),
{
    assert(s.has_identity(agent));
    let j = s.identity_at(agent);
    if j != k {
        assert(s.identities@[j].agent != s.identities@[k].agent);
    }
}

} // verus!
