//! Exercises the identity state machine on concrete records.

use kytin_solana::identity::AgentIdentity;
use kytin_solana::identity::CustomError;
use kytin_solana::identity::InitializeAgent;
use kytin_solana::identity::RecoverIdentity;
use kytin_solana::identity::SignHeartbeat;
use kytin_solana::identity::initialize_agent;
use kytin_solana::identity::recover_identity;
use kytin_solana::identity::sign_heartbeat;
use kytin_solana::key::Pubkey;

fn key(fill: u8) -> Pubkey {
    Pubkey::new([fill; 32])
}

fn fresh_agent(authority: Pubkey, recovery: Pubkey, resin: u64) -> AgentIdentity {
    let ctx = InitializeAgent {
        authority_tpm: authority,
        recovery_wallet: recovery,
    };
    initialize_agent(&ctx, resin)
}

fn heartbeat(agent: &mut AgentIdentity, signer: Pubkey) -> Result<(), CustomError> {
    let ctx = SignHeartbeat {
        authority_tpm: signer,
    };
    sign_heartbeat(agent, &ctx)
}

fn recover(
    agent: &mut AgentIdentity,
    record_id: Pubkey,
    signer: Pubkey,
    new_tpm: Pubkey,
) -> Result<kytin_solana::identity::IdentityRecovered, CustomError> {
    let ctx = RecoverIdentity {
        agent_identity: record_id,
        recovery_wallet: signer,
    };
    recover_identity(agent, &ctx, new_tpm)
}

#[test]
fn creation_sets_defaults() {
    let agent = fresh_agent(key(1), key(2), 7);
    assert_eq!(agent.authority_tpm, key(1));
    assert_eq!(agent.recovery_wallet, key(2));
    assert_eq!(agent.resin_balance, 7);
    assert_eq!(agent.reputation, 0);
    assert!(!agent.is_frozen);
}

#[test]
fn creation_accepts_zero_resin() {
    let agent = fresh_agent(key(1), key(2), 0);
    assert_eq!(agent.resin_balance, 0);
    assert!(!agent.is_frozen);
}

#[test]
fn heartbeat_succeeds_exactly_balance_times() {
    let a = key(1);
    let mut agent = fresh_agent(a, key(2), 3);
    for expected_left in [2u64, 1, 0] {
        assert_eq!(heartbeat(&mut agent, a), Ok(()));
        assert_eq!(agent.resin_balance, expected_left);
    }
    assert_eq!(heartbeat(&mut agent, a), Err(CustomError::InsufficientResin));
    assert_eq!(agent.resin_balance, 0);
    assert_eq!(heartbeat(&mut agent, a), Err(CustomError::InsufficientResin));
    assert_eq!(agent.resin_balance, 0);
}

#[test]
fn heartbeat_only_burns_resin() {
    let a = key(1);
    let mut agent = fresh_agent(a, key(2), 2);
    assert_eq!(heartbeat(&mut agent, a), Ok(()));
    assert_eq!(agent.authority_tpm, a);
    assert_eq!(agent.recovery_wallet, key(2));
    assert_eq!(agent.reputation, 0);
    assert!(!agent.is_frozen);
}

#[test]
fn heartbeat_at_max_balance() {
    let a = key(1);
    let mut agent = fresh_agent(a, key(2), u64::MAX);
    assert_eq!(heartbeat(&mut agent, a), Ok(()));
    assert_eq!(agent.resin_balance, u64::MAX - 1);
}

#[test]
fn frozen_agent_reports_frozen_before_balance() {
    let a = key(1);
    let mut agent = fresh_agent(a, key(2), 5);
    agent.is_frozen = true;
    assert_eq!(heartbeat(&mut agent, a), Err(CustomError::AgentFrozen));
    assert_eq!(agent.resin_balance, 5);
    assert!(agent.is_frozen);

    // A frozen and exhausted record still reports frozen, not exhausted.
    agent.resin_balance = 0;
    assert_eq!(heartbeat(&mut agent, a), Err(CustomError::AgentFrozen));
}

#[test]
fn heartbeat_by_wrong_signer_rejected() {
    let a = key(1);
    let mut agent = fresh_agent(a, key(2), 5);
    assert_eq!(heartbeat(&mut agent, key(3)), Err(CustomError::InvalidTPMSigner));
    assert_eq!(agent.resin_balance, 5);
    // The recovery credential is not the authority credential.
    assert_eq!(heartbeat(&mut agent, key(2)), Err(CustomError::InvalidTPMSigner));
    assert_eq!(agent.resin_balance, 5);
}

#[test]
fn recovery_rotates_authority_and_unfreezes() {
    let a = key(1);
    let r = key(2);
    let b = key(3);
    let id = key(9);
    let mut agent = fresh_agent(a, r, 5);
    agent.is_frozen = true;

    let event = recover(&mut agent, id, r, b).expect("authorized recovery must succeed");
    assert_eq!(agent.authority_tpm, b);
    assert!(!agent.is_frozen);
    assert_eq!(agent.recovery_wallet, r);
    assert_eq!(agent.resin_balance, 5);
    assert_eq!(agent.reputation, 0);
    assert_eq!(event.agent_identity, id);
    assert_eq!(event.old_tpm, a);
    assert_eq!(event.new_tpm, b);
}

#[test]
fn recovery_twice_overwrites_each_time() {
    let a = key(1);
    let r = key(2);
    let id = key(9);
    let mut agent = fresh_agent(a, r, 5);

    let first = recover(&mut agent, id, r, key(3)).unwrap();
    assert_eq!(first.old_tpm, a);
    assert_eq!(first.new_tpm, key(3));
    assert_eq!(agent.authority_tpm, key(3));

    let second = recover(&mut agent, id, r, key(4)).unwrap();
    assert_eq!(second.old_tpm, key(3));
    assert_eq!(second.new_tpm, key(4));
    assert_eq!(agent.authority_tpm, key(4));
    assert!(!agent.is_frozen);
}

#[test]
fn unauthorized_recovery_leaves_record_unchanged() {
    let a = key(1);
    let r = key(2);
    let mut agent = fresh_agent(a, r, 5);
    agent.is_frozen = true;

    let out = recover(&mut agent, key(9), key(7), key(3));
    assert_eq!(out.unwrap_err(), CustomError::InvalidRecoveryWallet);
    assert_eq!(agent.authority_tpm, a);
    assert_eq!(agent.recovery_wallet, r);
    assert_eq!(agent.resin_balance, 5);
    assert_eq!(agent.reputation, 0);
    assert!(agent.is_frozen);

    // The authority credential itself is not the recovery credential.
    let out = recover(&mut agent, key(9), a, key(3));
    assert_eq!(out.unwrap_err(), CustomError::InvalidRecoveryWallet);
    assert_eq!(agent.authority_tpm, a);
}

#[test]
fn equal_keys_are_legal() {
    let k = key(1);
    let mut agent = fresh_agent(k, k, 2);
    assert_eq!(heartbeat(&mut agent, k), Ok(()));
    assert_eq!(agent.resin_balance, 1);
    let event = recover(&mut agent, key(9), k, key(5)).unwrap();
    assert_eq!(event.old_tpm, k);
    assert_eq!(agent.authority_tpm, key(5));
    // The recovery credential is untouched by recovery.
    assert_eq!(agent.recovery_wallet, k);
}

#[test]
fn key_eq_compares_every_byte() {
    let mut bytes = [1u8; 32];
    let a = Pubkey::new(bytes);
    bytes[31] = 2;
    let b = Pubkey::new(bytes);
    assert!(a.key_eq(&a));
    assert!(b.key_eq(&b));
    assert!(!a.key_eq(&b));
    assert!(!b.key_eq(&a));
}
