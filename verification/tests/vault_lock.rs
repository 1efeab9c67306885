use token_launch::account::AccountKey;
use token_launch::error::LaunchpadError;
use token_launch::limits::{MAXIMUM_VESTING_PERIOD, MINIMUM_AMOUNT, MINIMUM_VESTING_PERIOD};
use token_launch::vault::{initialize_vault, lock_tokens, unlock_tokens};

fn key(b: u8) -> AccountKey {
    AccountKey::new([b; 32])
}

#[test]
fn limits() {
    assert_eq!(MINIMUM_VESTING_PERIOD, 24 * 60 * 60);
    assert_eq!(MAXIMUM_VESTING_PERIOD, 365 * 24 * 60 * 60);
    assert_eq!(MINIMUM_AMOUNT, 1_000_000);
}

#[test]
fn keys_compare_by_bytes() {
    let a = key(7);
    let mut bytes = [7u8; 32];
    assert!(a.same_as(&AccountKey::new(bytes)));
    bytes[0] = 8;
    assert!(!a.same_as(&AccountKey::new(bytes)));
    bytes[0] = 7;
    bytes[31] = 6;
    assert!(!a.same_as(&AccountKey::new(bytes)));
    assert_eq!(a.to_bytes(), [7u8; 32]);
}

#[test]
fn new_vault_is_empty() {
    let v = initialize_vault(key(1), 250);
    assert_eq!(v.owner.to_bytes(), [1u8; 32]);
    assert_eq!(v.bump, 250);
    assert_eq!(v.locked_amount, 0);
    assert_eq!(v.locked_until, 0);
}

#[test]
fn lock_sets_amount_and_deadline() {
    let mut v = initialize_vault(key(1), 250);
    assert_eq!(lock_tokens(&mut v, 2_000_000, 86_400, 1_000), Ok(()));
    assert_eq!(v.locked_amount, 2_000_000);
    assert_eq!(v.locked_until, 87_400);
    assert_eq!(v.bump, 250);
}

#[test]
fn lock_refuses_small_amounts() {
    let mut v = initialize_vault(key(1), 0);
    assert_eq!(lock_tokens(&mut v, 999_999, 86_400, 1_000), Err(LaunchpadError::AmountTooLow));
    assert_eq!(lock_tokens(&mut v, 0, 1, 1_000), Err(LaunchpadError::AmountTooLow));
    assert_eq!(v.locked_amount, 0);
    assert_eq!(v.locked_until, 0);
    assert_eq!(lock_tokens(&mut v, 1_000_000, 86_400, 1_000), Ok(()));
}

#[test]
fn lock_refuses_durations_out_of_range() {
    let mut v = initialize_vault(key(1), 0);
    assert_eq!(lock_tokens(&mut v, 1_000_000, 86_399, 0), Err(LaunchpadError::InvalidDuration));
    assert_eq!(lock_tokens(&mut v, 1_000_000, 31_536_001, 0), Err(LaunchpadError::InvalidDuration));
    assert_eq!(lock_tokens(&mut v, 1_000_000, -5, 0), Err(LaunchpadError::InvalidDuration));
    assert_eq!(lock_tokens(&mut v, 1_000_000, i64::MAX, 0), Err(LaunchpadError::InvalidDuration));
    assert_eq!(v.locked_amount, 0);
    assert_eq!(lock_tokens(&mut v, 1_000_000, 31_536_000, 5), Ok(()));
    assert_eq!(v.locked_until, 31_536_005);
}

#[test]
fn lock_refuses_a_locked_vault() {
    let mut v = initialize_vault(key(1), 0);
    assert_eq!(lock_tokens(&mut v, 1_000_000, 86_400, 0), Ok(()));
    assert_eq!(lock_tokens(&mut v, 5_000_000, 90_000, 10), Err(LaunchpadError::AlreadyLocked));
    assert_eq!(v.locked_amount, 1_000_000);
    assert_eq!(v.locked_until, 86_400);
}

#[test]
fn lock_refuses_a_deadline_beyond_time() {
    let mut v = initialize_vault(key(1), 0);
    assert_eq!(
        lock_tokens(&mut v, 1_000_000, 86_400, i64::MAX - 86_399),
        Err(LaunchpadError::InvalidArgument)
    );
    assert_eq!(v.locked_amount, 0);
    assert_eq!(lock_tokens(&mut v, 1_000_000, 86_400, i64::MAX - 86_400), Ok(()));
    assert_eq!(v.locked_until, i64::MAX);
}

#[test]
fn unlock_is_gated_by_time() {
    let mut v = initialize_vault(key(1), 0);
    assert_eq!(lock_tokens(&mut v, 3_000_000, 86_400, 1_000), Ok(()));
    for now in [i64::MIN, 0, 1_000, 50_000, 87_399] {
        assert_eq!(unlock_tokens(&mut v, now), Err(LaunchpadError::TokensStillLocked));
        assert_eq!(v.locked_amount, 3_000_000);
        assert_eq!(v.locked_until, 87_400);
    }
    assert_eq!(unlock_tokens(&mut v, 87_400), Ok(3_000_000));
    assert_eq!(v.locked_amount, 0);
}

#[test]
fn unlock_long_after_the_deadline() {
    let mut v = initialize_vault(key(1), 0);
    assert_eq!(lock_tokens(&mut v, 3_000_000, 86_400, 1_000), Ok(()));
    assert_eq!(unlock_tokens(&mut v, i64::MAX), Ok(3_000_000));
    assert_eq!(v.locked_amount, 0);
}

#[test]
fn unlock_refuses_an_empty_vault() {
    let mut v = initialize_vault(key(1), 0);
    assert_eq!(unlock_tokens(&mut v, 5), Err(LaunchpadError::NotLocked));
    assert_eq!(unlock_tokens(&mut v, -1), Err(LaunchpadError::TokensStillLocked));
    assert_eq!(lock_tokens(&mut v, 1_000_000, 86_400, 0), Ok(()));
    assert_eq!(unlock_tokens(&mut v, 86_400), Ok(1_000_000));
    assert_eq!(unlock_tokens(&mut v, 86_401), Err(LaunchpadError::NotLocked));
}

#[test]
fn vault_can_be_locked_again_after_unlock() {
    let mut v = initialize_vault(key(1), 0);
    assert_eq!(lock_tokens(&mut v, 1_000_000, 86_400, 0), Ok(()));
    assert_eq!(unlock_tokens(&mut v, 100_000), Ok(1_000_000));
    assert_eq!(lock_tokens(&mut v, 4_000_000, 100_000, 100_000), Ok(()));
    assert_eq!(v.locked_amount, 4_000_000);
    assert_eq!(v.locked_until, 200_000);
    assert_eq!(unlock_tokens(&mut v, 199_999), Err(LaunchpadError::TokensStillLocked));
    assert_eq!(unlock_tokens(&mut v, 200_000), Ok(4_000_000));
}
