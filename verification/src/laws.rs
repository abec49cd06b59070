//! The library-wide laws of the identity state machine, stated over the
//! spec-level transitions and proved once and for all.

use vstd::prelude::*;

use crate::identity::AgentIdentityView;
use crate::identity::CustomError;
use crate::identity::initialize_agent_spec;
use crate::identity::recover_identity_spec;
use crate::identity::sign_heartbeat_spec;

verus! {

/// The record left after the authority has attempted `n` heartbeats in a
/// row, each applied only when it succeeds: a failed attempt leaves the
/// record as it was.
pub open spec fn after_heartbeats(v: AgentIdentityView, n: nat) -> AgentIdentityView
    decreases n,
{
    if n == 0 {
        v
    } else {
        let prev = after_heartbeats(v, (n - 1) as nat);
        match sign_heartbeat_spec(prev, prev.authority_tpm) {
            Ok(next) => next,
            Err(_) => prev,
        }
    }
}

/// A freshly created record is unfrozen, has zero reputation, and carries
/// exactly the credentials and the initial resin it was given.
pub proof fn lemma_initialize_defaults(
    authority_tpm: Seq<u8>,
    recovery_wallet: Seq<u8>,
    initial_resin: u64,
)
    ensures
        !initialize_agent_spec(authority_tpm, recovery_wallet, initial_resin).is_frozen,
        initialize_agent_spec(authority_tpm, recovery_wallet, initial_resin).reputation == 0,
        initialize_agent_spec(authority_tpm, recovery_wallet, initial_resin).resin_balance
            == initial_resin,
        initialize_agent_spec(authority_tpm, recovery_wallet, initial_resin).authority_tpm
            == authority_tpm,
        initialize_agent_spec(authority_tpm, recovery_wallet, initial_resin).recovery_wallet
            == recovery_wallet,
{
}

/// On an unfrozen record, heartbeats by the authority succeed exactly
/// `resin_balance` times: the `k`-th attempt succeeds while `k` is below
/// the initial balance and fails with `InsufficientResin` from then on, the
/// balance falls by one per success and stops at zero — it never wraps —
/// and no attempt touches any other field.
pub proof fn lemma_heartbeat_metering(v: AgentIdentityView, k: nat)
    requires
        !v.is_frozen,
    ensures
        after_heartbeats(v, k).authority_tpm == v.authority_tpm,
        after_heartbeats(v, k).recovery_wallet == v.recovery_wallet,
        after_heartbeats(v, k).reputation == v.reputation,
        !after_heartbeats(v, k).is_frozen,
        after_heartbeats(v, k).resin_balance == if k <= v.resin_balance {
            (v.resin_balance - k) as u64
        } else {
            0u64
        },
        k < v.resin_balance ==> sign_heartbeat_spec(after_heartbeats(v, k), v.authority_tpm)
            is Ok,
        k >= v.resin_balance ==> sign_heartbeat_spec(after_heartbeats(v, k), v.authority_tpm)
            == Err::<AgentIdentityView, CustomError>(CustomError::InsufficientResin),
    decreases k,
{
    if k > 0 {
        lemma_heartbeat_metering(v, (k - 1) as nat);
    }
}

/// A heartbeat on a frozen record fails with `AgentFrozen`, however much
/// resin remains: the frozen check runs before the balance check.
pub proof fn lemma_frozen_blocks_heartbeat(v: AgentIdentityView)
    requires
        v.is_frozen,
    ensures
        sign_heartbeat_spec(v, v.authority_tpm) == Err::<AgentIdentityView, CustomError>(
            CustomError::AgentFrozen,
        ),
{
}

/// Authorized recovery always succeeds: it installs the new authority key
/// and clears the frozen flag whatever either held before, and leaves the
/// recovery credential, the resin balance and the reputation untouched.
pub proof fn lemma_recovery_unfreezes_and_rotates(v: AgentIdentityView, new_tpm: Seq<u8>)
    ensures
        recover_identity_spec(v, v.recovery_wallet, new_tpm) matches Ok(w) && !w.is_frozen
            && w.authority_tpm == new_tpm && w.recovery_wallet == v.recovery_wallet
            && w.resin_balance == v.resin_balance && w.reputation == v.reputation,
{
}

/// Recovery requested by anything but the record's recovery credential
/// fails with `InvalidRecoveryWallet`; the step yields no new record, so
/// every field stays as it was.
pub proof fn lemma_unauthorized_recovery_rejected(
    v: AgentIdentityView,
    requester: Seq<u8>,
    new_tpm: Seq<u8>,
)
    requires
        requester != v.recovery_wallet,
    ensures
        recover_identity_spec(v, requester, new_tpm) == Err::<AgentIdentityView, CustomError>(
            CustomError::InvalidRecoveryWallet,
        ),
{
}

} // verus!
