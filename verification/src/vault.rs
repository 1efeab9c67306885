use vstd::prelude::*;
use crate::account::AccountKey;
use crate::error::LaunchpadError;
use crate::limits::period_allowed;
use crate::limits::MAXIMUM_VESTING_PERIOD;
use crate::limits::MINIMUM_AMOUNT;
use crate::limits::MINIMUM_VESTING_PERIOD;

verus! {

/// One owner's time-locked deposit. The vault is empty while `locked_amount`
/// is zero and locked otherwise.
#[derive(Clone, Copy, Debug)]
pub struct Vault {
    pub owner: AccountKey,
    pub bump: u8,
    pub locked_amount: u64,
    /// The time from which the deposit may be taken out.
    pub locked_until: i64,
}

impl Vault {
    pub open spec fn is_empty(&self) -> bool {
        self.locked_amount == 0
    }

    /// The vault after locking `amount` for `lock_duration` at `now`, or why
    /// the lock is refused. A lock whose end is beyond the largest time there
    /// is cannot be kept and is refused.
    pub open spec fn lock(&self, amount: u64, lock_duration: i64, now: i64) -> Result<
        Vault,
        LaunchpadError,
    > {
        if amount < MINIMUM_AMOUNT {
            Err(LaunchpadError::AmountTooLow)
        } else if !period_allowed(lock_duration as int) {
            Err(LaunchpadError::InvalidDuration)
        } else if !self.is_empty() {
            Err(LaunchpadError::AlreadyLocked)
        } else if now + lock_duration > i64::MAX {
            Err(LaunchpadError::InvalidArgument)
        } else {
            Ok(
                Vault {
                    locked_amount: amount,
                    locked_until: (now + lock_duration) as i64,
                    ..*self
                },
            )
        }
    }

    /// The vault after taking the deposit out at `now` and the amount taken,
    /// or why the withdrawal is refused.
    pub open spec fn unlock(&self, now: i64) -> Result<(Vault, u64), LaunchpadError> {
        if now < self.locked_until {
            Err(LaunchpadError::TokensStillLocked)
        } else if self.is_empty() {
            Err(LaunchpadError::NotLocked)
        } else {
            Ok((Vault { locked_amount: 0, ..*self }, self.locked_amount))
        }
    }
}

/// An empty vault for `owner`.
pub fn initialize_vault(owner: AccountKey, bump: u8) -> (vault: Vault)
    ensures
        vault == (Vault { owner, bump, locked_amount: 0, locked_until: 0 }),
        vault.is_empty(),
{
    Vault { owner, bump, locked_amount: 0, locked_until: 0 }
}

/// Locks `amount` in an empty vault until `lock_duration` seconds after
/// `now`. On success the caller moves `amount` into custody. On failure the
/// vault is untouched.
pub fn lock_tokens(vault: &mut Vault, amount: u64, lock_duration: i64, now: i64) -> (r: Result<
    (),
    LaunchpadError,
>)
    ensures
        match old(vault).lock(amount, lock_duration, now) {
            Ok(next) => r == Ok::<(), LaunchpadError>(()) && *final(vault) == next,
            Err(e) => r == Err::<(), LaunchpadError>(e) && *final(vault) == *old(vault),
        },
        r is Ok ==> !final(vault).is_empty() && final(vault).locked_until == now + lock_duration,
{
    if amount < MINIMUM_AMOUNT {
        return Err(LaunchpadError::AmountTooLow);
    }
    if lock_duration < MINIMUM_VESTING_PERIOD || lock_duration > MAXIMUM_VESTING_PERIOD {
        return Err(LaunchpadError::InvalidDuration);
    }
    if vault.locked_amount != 0 {
        return Err(LaunchpadError::AlreadyLocked);
    }
    let locked_until = match now.checked_add(lock_duration) {
        Some(t) => t,
        None => {
            return Err(LaunchpadError::InvalidArgument);
        },
    };
    vault.locked_amount = amount;
    vault.locked_until = locked_until;
    Ok(())
}

/// Takes the deposit out of a locked vault once its lock has ended. On
/// success the vault is empty and the caller moves the returned amount out of
/// custody. On failure the vault is untouched.
pub fn unlock_tokens(vault: &mut Vault, now: i64) -> (r: Result<u64, LaunchpadError>)
    ensures
        match old(vault).unlock(now) {
            Ok((next, amount)) => r == Ok::<u64, LaunchpadError>(amount) && *final(vault) == next,
            Err(e) => r == Err::<u64, LaunchpadError>(e) && *final(vault) == *old(vault),
        },
        now < old(vault).locked_until ==> r == Err::<u64, LaunchpadError>(
            LaunchpadError::TokensStillLocked,
        ),
        r is Ok ==> final(vault).is_empty() && r->Ok_0 == old(vault).locked_amount,
{
    if now < vault.locked_until {
        return Err(LaunchpadError::TokensStillLocked);
    }
    if vault.locked_amount == 0 {
        return Err(LaunchpadError::NotLocked);
    }
    let amount = vault.locked_amount;
    vault.locked_amount = 0;
    Ok(amount)
}

/// Before the lock ends every withdrawal is refused as still locked; from
/// then on a locked vault pays out its whole deposit and is left empty.
pub proof fn lemma_unlock_gated_by_time(vault: Vault, now: i64)
    ensures
        now < vault.locked_until ==> vault.unlock(now) == Err::<(Vault, u64), LaunchpadError>(
            LaunchpadError::TokensStillLocked,
        ),
        now >= vault.locked_until && !vault.is_empty() ==> vault.unlock(now) is Ok
            && vault.unlock(now)->Ok_0.0.locked_amount == 0 && vault.unlock(now)->Ok_0.1
            == vault.locked_amount,
{
}

/// A deposit locked at `now` cannot be taken out before the lock period has
/// passed, and can be taken out in full from then on, leaving the vault
/// empty.
pub proof fn lemma_lock_then_unlock(
    vault: Vault,
    amount: u64,
    lock_duration: i64,
    now: i64,
    later: i64,
)
    requires
        vault.lock(amount, lock_duration, now) is Ok,
    ensures
        later < now + lock_duration ==> vault.lock(amount, lock_duration, now)->Ok_0.unlock(later)
            == Err::<(Vault, u64), LaunchpadError>(LaunchpadError::TokensStillLocked),
        now + lock_duration <= later ==> vault.lock(amount, lock_duration, now)->Ok_0.unlock(later)
            is Ok && vault.lock(amount, lock_duration, now)->Ok_0.unlock(later)->Ok_0.1 == amount
            && vault.lock(amount, lock_duration, now)->Ok_0.unlock(later)->Ok_0.0.is_empty(),
{
}

} // verus!
