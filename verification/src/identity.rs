//! The agent identity record and its three transitions.
//!
//! A record binds an active authority credential (`authority_tpm`) to a cold
//! recovery credential (`recovery_wallet`), carries a consumable resin
//! balance that meters the heartbeat action, a reputation counter reserved
//! for future scoring, and a suspension flag.  Three transitions exist:
//! creation, recovery of the authority key, and a metered heartbeat.  Each
//! is a single atomic step over one record; the host serialises transitions
//! on the same record and owns storage and event delivery.

use vstd::prelude::*;

use crate::key::Pubkey;

verus! {

/// Mathematical snapshot of a record: each credential as its byte sequence,
/// the remaining fields as plain values.  All contracts are stated over it.
pub ghost struct AgentIdentityView {
    pub authority_tpm: Seq<u8>,
    pub recovery_wallet: Seq<u8>,
    pub resin_balance: u64,
    pub reputation: u16,
    pub is_frozen: bool,
}

/// One agent's identity record.
///
/// Created once by [`initialize_agent`]; thereafter only
/// [`recover_identity`] touches `authority_tpm` and `is_frozen`, and only
/// [`sign_heartbeat`] touches `resin_balance`.  `recovery_wallet` is fixed
/// for the record's lifetime and `reputation` is a placeholder no
/// transition mutates.  Nothing here ever sets `is_frozen`: freezing is an
/// administrative capability of the host, outside this library.
#[derive(Clone, Debug)]
pub struct AgentIdentity {
    /// The active signing credential; rotated only by recovery.
    pub authority_tpm: Pubkey,
    /// The cold backup credential allowed to rotate `authority_tpm`.
    pub recovery_wallet: Pubkey,
    /// Units left for heartbeats; each successful heartbeat burns one.
    pub resin_balance: u64,
    /// Reserved for future uptime scoring; never mutated here.
    pub reputation: u16,
    /// Suspension flag; cleared by every successful recovery.
    pub is_frozen: bool,
}

impl View for AgentIdentity {
    type V = AgentIdentityView;

    open spec fn view(&self) -> AgentIdentityView {
        AgentIdentityView {
            authority_tpm: self.authority_tpm@,
            recovery_wallet: self.recovery_wallet@,
            resin_balance: self.resin_balance,
            reputation: self.reputation,
            is_frozen: self.is_frozen,
        }
    }
}

/// Why a transition was refused.  Every failure is terminal and leaves the
/// record unchanged; retrying is the caller's decision.
#[derive(Clone, Copy, Debug, PartialEq, Eq, Structural)]
pub enum CustomError {
    /// Recovery was requested by a credential other than `recovery_wallet`.
    InvalidRecoveryWallet,
    /// A heartbeat was requested by a credential other than `authority_tpm`.
    InvalidTPMSigner,
    /// A heartbeat was attempted while the record is frozen.
    AgentFrozen,
    /// A heartbeat was attempted with no resin left.
    InsufficientResin,
}

/// Notification emitted by a successful recovery, the library's only
/// observable event.  The host's sink forwards it so off-record observers
/// can detect authority changes; delivery is fire-and-forget.
#[derive(Clone, Copy, Debug)]
pub struct IdentityRecovered {
    /// Stable identity of the record, as the store addresses it.
    pub agent_identity: Pubkey,
    /// The authority credential that was replaced.
    pub old_tpm: Pubkey,
    /// The authority credential now in force.
    pub new_tpm: Pubkey,
}

/// The credentials a creation request names.  The host has already funded
/// and allocated the record's storage; neither key is checked against the
/// other, so equal keys are legal (if discouraged).
pub struct InitializeAgent {
    /// The initial authority credential.
    pub authority_tpm: Pubkey,
    /// The cold backup credential.
    pub recovery_wallet: Pubkey,
}

/// A recovery request as the host hands it over: the record's stable
/// identity and the credential the host authenticated as the signer.
pub struct RecoverIdentity {
    /// Stable identity of the record being recovered.
    pub agent_identity: Pubkey,
    /// The credential that signed the request.
    pub recovery_wallet: Pubkey,
}

/// A heartbeat request as the host hands it over: the credential the host
/// authenticated as the signer.
pub struct SignHeartbeat {
    /// The credential that signed the request.
    pub authority_tpm: Pubkey,
}

/// The record a creation request yields: the two supplied credentials, the
/// supplied resin, zero reputation, not frozen.
pub open spec fn initialize_agent_spec(
    authority_tpm: Seq<u8>,
    recovery_wallet: Seq<u8>,
    initial_resin: u64,
) -> AgentIdentityView {
    AgentIdentityView {
        authority_tpm: authority_tpm,
        recovery_wallet: recovery_wallet,
        resin_balance: initial_resin,
        reputation: 0u16,
        is_frozen: false,
    }
}

/// The recovery step: refused unless the requester is the record's recovery
/// credential; otherwise the authority key is overwritten and the frozen
/// flag cleared, whatever either held before.  Nothing else changes.
pub open spec fn recover_identity_spec(
    v: AgentIdentityView,
    requester: Seq<u8>,
    new_tpm: Seq<u8>,
) -> Result<AgentIdentityView, CustomError> {
    if requester != v.recovery_wallet {
        Err(CustomError::InvalidRecoveryWallet)
    } else {
        Ok(
            AgentIdentityView {
                authority_tpm: new_tpm,
                recovery_wallet: v.recovery_wallet,
                resin_balance: v.resin_balance,
                reputation: v.reputation,
                is_frozen: false,
            },
        )
    }
}

/// The heartbeat step: refused when the requester is not the record's
/// authority credential, then when the record is frozen (before the balance
/// is looked at, so a frozen and exhausted record reports frozen), then
/// when no resin is left.  On success exactly one resin unit is burned and
/// nothing else changes.
pub open spec fn sign_heartbeat_spec(
    v: AgentIdentityView,
    requester: Seq<u8>,
) -> Result<AgentIdentityView, CustomError> {
    if requester != v.authority_tpm {
        Err(CustomError::InvalidTPMSigner)
    } else if v.is_frozen {
        Err(CustomError::AgentFrozen)
    } else if v.resin_balance < 1 {
        Err(CustomError::InsufficientResin)
    } else {
        Ok(
            AgentIdentityView {
                authority_tpm: v.authority_tpm,
                recovery_wallet: v.recovery_wallet,
                resin_balance: (v.resin_balance - 1) as u64,
                reputation: v.reputation,
                is_frozen: v.is_frozen,
            },
        )
    }
}

/// Creates a fresh identity record from the two credentials and the initial
/// resin grant.  No validation is performed: creation never fails at this
/// layer, and equal credentials are accepted.
pub fn initialize_agent(ctx: &InitializeAgent, initial_resin: u64) -> (agent: AgentIdentity)
    ensures
        agent@ == initialize_agent_spec(ctx.authority_tpm@, ctx.recovery_wallet@, initial_resin),
{
    AgentIdentity {
        authority_tpm: ctx.authority_tpm,
        recovery_wallet: ctx.recovery_wallet,
        resin_balance: initial_resin,
        reputation: 0,
        is_frozen: false,
    }
}

/// Rotates the record's authority credential under recovery authorization.
///
/// The host's gate normally filters unauthorized requests before they get
/// here, but the check is repeated defensively: a requester other than the
/// record's recovery credential is refused and the record is left
/// untouched.  On success the authority key is overwritten, the frozen flag
/// is cleared unconditionally, and the returned [`IdentityRecovered`] event
/// names the record and both authority keys.  Two successive recoveries
/// both succeed, each overwriting the last: there is no idempotence
/// requirement.
pub fn recover_identity(
    agent: &mut AgentIdentity,
    ctx: &RecoverIdentity,
    new_tpm_key: Pubkey,
) -> (r: Result<IdentityRecovered, CustomError>)
    ensures
        recover_identity_spec(old(agent)@, ctx.recovery_wallet@, new_tpm_key@) matches Ok(v)
            ==> r matches Ok(ev) && final(agent)@ == v && ev.agent_identity@ == ctx.agent_identity@
            && ev.old_tpm@ == old(agent)@.authority_tpm && ev.new_tpm@ == new_tpm_key@,
        recover_identity_spec(old(agent)@, ctx.recovery_wallet@, new_tpm_key@) matches Err(e)
            ==> r matches Err(re) && re == e && final(agent)@ == old(agent)@,
{
    if !ctx.recovery_wallet.key_eq(&agent.recovery_wallet) {
        return Err(CustomError::InvalidRecoveryWallet);
    }
    let old_tpm = agent.authority_tpm;
    agent.authority_tpm = new_tpm_key;
    agent.is_frozen = false;
    Ok(
        IdentityRecovered {
            agent_identity: ctx.agent_identity,
            old_tpm: old_tpm,
            new_tpm: new_tpm_key,
        },
    )
}

/// Processes one metered liveness action.
///
/// The requester must be the record's current authority credential (checked
/// defensively, as for recovery); then the record must not be frozen; then
/// at least one resin unit must remain.  The checks run in that order, so a
/// frozen and exhausted record reports frozen.  On success exactly one unit
/// is burned and no other field changes; no event is emitted.  On any
/// failure the record is left untouched.
pub fn sign_heartbeat(agent: &mut AgentIdentity, ctx: &SignHeartbeat) -> (r: Result<
    (),
    CustomError,
>)
    ensures
        sign_heartbeat_spec(old(agent)@, ctx.authority_tpm@) matches Ok(v)
            ==> r matches Ok(u) && final(agent)@ == v,
        sign_heartbeat_spec(old(agent)@, ctx.authority_tpm@) matches Err(e)
            ==> r matches Err(re) && re == e && final(agent)@ == old(agent)@,
{
    if !ctx.authority_tpm.key_eq(&agent.authority_tpm) {
        return Err(CustomError::InvalidTPMSigner);
    }
    if agent.is_frozen {
        return Err(CustomError::AgentFrozen);
    }
    if agent.resin_balance < 1 {
        return Err(CustomError::InsufficientResin);
    }
    agent.resin_balance = agent.resin_balance - 1;
    Ok(())
}

} // verus!
