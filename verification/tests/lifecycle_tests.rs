use liquid_staking_token::error::PoolError;
use liquid_staking_token::lifecycle::{
    can_merge, complete_withdrawal, merge_positions, split_position, StakeLifecycle, StakePosition,
};

#[test]
fn test_lifecycle_progression() {
    let mut p = StakePosition {
        state: StakeLifecycle::Uninitialized,
        lamports: 1_000_000_000,
    };
    p.initialize().unwrap();
    assert_eq!(p.state, StakeLifecycle::Initialized);
    p.delegate().unwrap();
    assert_eq!(p.state, StakeLifecycle::Activating);
    p.advance_epoch();
    assert_eq!(p.state, StakeLifecycle::Active);
    p.deactivate().unwrap();
    assert_eq!(p.state, StakeLifecycle::Deactivating);
    p.advance_epoch();
    assert_eq!(p.state, StakeLifecycle::Deactivated);
    assert_eq!(p.lamports, 1_000_000_000);
}

#[test]
fn test_initialize_twice_fails() {
    let mut p = StakePosition {
        state: StakeLifecycle::Uninitialized,
        lamports: 5,
    };
    p.initialize().unwrap();
    assert_eq!(
        p.initialize().unwrap_err(),
        PoolError::AccountAlreadyInitialized
    );
}

#[test]
fn test_merge_requires_compatible_states() {
    assert!(can_merge(&StakeLifecycle::Active, &StakeLifecycle::Active));
    assert!(can_merge(&StakeLifecycle::Activating, &StakeLifecycle::Activating));
    assert!(!can_merge(&StakeLifecycle::Active, &StakeLifecycle::Activating));
    assert!(!can_merge(&StakeLifecycle::Deactivated, &StakeLifecycle::Active));
}

#[test]
fn test_merge_incompatible_fails_without_mutation() {
    let mut dst = StakePosition {
        state: StakeLifecycle::Active,
        lamports: 100,
    };
    let mut src = StakePosition {
        state: StakeLifecycle::Deactivating,
        lamports: 50,
    };
    assert_eq!(
        merge_positions(&mut dst, &mut src).unwrap_err(),
        PoolError::InvalidAccountData
    );
    assert_eq!(dst.lamports, 100);
    assert_eq!(dst.state, StakeLifecycle::Active);
    assert_eq!(src.lamports, 50);
    assert_eq!(src.state, StakeLifecycle::Deactivating);
}

#[test]
fn test_merge_consumes_source() {
    let mut dst = StakePosition {
        state: StakeLifecycle::Active,
        lamports: 100,
    };
    let mut src = StakePosition {
        state: StakeLifecycle::Active,
        lamports: 50,
    };
    merge_positions(&mut dst, &mut src).unwrap();
    assert_eq!(dst.lamports, 150);
    assert_eq!(src.lamports, 0);
    assert_eq!(src.state, StakeLifecycle::Uninitialized);
}

#[test]
fn test_split_keeps_state_and_value() {
    let mut src = StakePosition {
        state: StakeLifecycle::Active,
        lamports: 100,
    };
    let new = split_position(&mut src, 30).unwrap();
    assert_eq!(src.lamports, 70);
    assert_eq!(new.lamports, 30);
    assert_eq!(new.state, StakeLifecycle::Active);
    assert_eq!(
        split_position(&mut src, 71).unwrap_err(),
        PoolError::InsufficientFunds
    );
    assert_eq!(src.lamports, 70);
}

#[test]
fn test_withdraw_complete_before_cooldown_fails() {
    let mut ticket = StakePosition {
        state: StakeLifecycle::Deactivating,
        lamports: 40,
    };
    assert_eq!(
        complete_withdrawal(&mut ticket).unwrap_err(),
        PoolError::InvalidAccountData
    );
    assert_eq!(ticket.lamports, 40);
    assert_eq!(ticket.state, StakeLifecycle::Deactivating);
}

#[test]
fn test_complete_succeeds_at_most_once() {
    let mut ticket = StakePosition {
        state: StakeLifecycle::Deactivated,
        lamports: 40,
    };
    assert_eq!(complete_withdrawal(&mut ticket).unwrap(), 40);
    assert_eq!(ticket.lamports, 0);
    assert_eq!(ticket.state, StakeLifecycle::Uninitialized);
    // The second completion finds an empty, cleared ticket.
    assert_eq!(
        complete_withdrawal(&mut ticket).unwrap_err(),
        PoolError::UninitializedAccount
    );
}

#[test]
fn test_complete_empty_ticket_fails() {
    let mut ticket = StakePosition {
        state: StakeLifecycle::Deactivated,
        lamports: 0,
    };
    assert_eq!(
        complete_withdrawal(&mut ticket).unwrap_err(),
        PoolError::UninitializedAccount
    );
}
