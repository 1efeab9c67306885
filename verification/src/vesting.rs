use vstd::prelude::*;
use vstd::arithmetic::div_mod::lemma_div_is_ordered;
use vstd::arithmetic::div_mod::lemma_div_multiples_vanish;
use crate::account::AccountKey;
use crate::enhanced_bonding_curve::market_cap_of;
use crate::enhanced_bonding_curve::EnhancedBondingCurve;
use crate::error::LaunchpadError;
use crate::limits::period_allowed;
use crate::limits::MAXIMUM_VESTING_PERIOD;
use crate::limits::MINIMUM_AMOUNT;
use crate::limits::MINIMUM_VESTING_PERIOD;
use crate::math::lemma_mul_div_monotone;
use crate::math::lemma_mul_sat_le;
use crate::math::mul_div;
use crate::math::mul_sat;
use crate::math::saturating_mul_div;
use crate::math::sub_sat;

verus! {

/// A beneficiary's vesting schedule: released in proportion to time, and
/// only once the market capitalisation has reached its target.
///
/// A schedule is created, then funded by one deposit of the whole amount,
/// then unlocked once; `is_deposited` and `is_unlocked` record how far it
/// has come.
#[derive(Clone, Copy, Debug)]
pub struct Vesting {
    /// The account that receives the tokens.
    pub beneficiary: AccountKey,
    pub token_mint: AccountKey,
    /// Total vested quantity, fixed at creation.
    pub amount: u64,
    pub start_timestamp: i64,
    pub end_timestamp: i64,
    pub market_cap_target: u64,
    /// Whether the tokens have been moved into custody.
    pub is_deposited: bool,
    /// Whether the market-cap target has been reached.
    pub is_unlocked: bool,
    /// When the schedule was unlocked; zero until then.
    pub unlock_timestamp: i64,
    pub creator: AccountKey,
    pub bump: u8,
}

/// Why a request for a schedule is refused, if it is.
pub open spec fn vesting_request_error(amount: u64, start_time: i64, end_time: i64, now: i64)
    -> Option<LaunchpadError> {
    if start_time <= now {
        Some(LaunchpadError::InvalidStartTime)
    } else if end_time <= start_time {
        Some(LaunchpadError::InvalidEndTime)
    } else if !period_allowed(end_time - start_time) {
        Some(LaunchpadError::InvalidDuration)
    } else if amount < MINIMUM_AMOUNT {
        Some(LaunchpadError::AmountTooLow)
    } else {
        None
    }
}

impl Vesting {
    /// What every schedule made and changed by this module satisfies.
    pub open spec fn wf(&self) -> bool {
        &&& self.start_timestamp < self.end_timestamp
        &&& period_allowed(self.end_timestamp - self.start_timestamp)
        &&& self.amount >= MINIMUM_AMOUNT
        &&& self.is_unlocked ==> self.is_deposited
    }

    /// The amount released by `now`: nothing while the schedule is not
    /// unlocked or has not started, everything once it has ended, and the
    /// share of the period that has passed in between.
    pub open spec fn claimable(&self, now: i64) -> int {
        if !self.is_unlocked {
            0
        } else if now >= self.end_timestamp {
            self.amount as int
        } else if now <= self.start_timestamp {
            0
        } else {
            mul_div(
                self.amount as int,
                now - self.start_timestamp,
                self.end_timestamp - self.start_timestamp,
            )
        }
    }

    /// The schedule after a deposit of `amount`, or why it is refused.
    pub open spec fn deposit(&self, amount: u64) -> Result<Vesting, LaunchpadError> {
        if amount != self.amount {
            Err(LaunchpadError::InvalidVestingAmount)
        } else if self.is_deposited {
            Err(LaunchpadError::AlreadyLocked)
        } else {
            Ok(Vesting { is_deposited: true, ..*self })
        }
    }

    /// The schedule after the market capitalisation was observed at
    /// `market_cap` at time `now`, or why it stays locked.
    pub open spec fn unlock(&self, market_cap: u64, now: i64) -> Result<Vesting, LaunchpadError> {
        if !self.is_deposited {
            Err(LaunchpadError::NotLocked)
        } else if self.is_unlocked {
            Err(LaunchpadError::AlreadyUnlocked)
        } else if market_cap < self.market_cap_target {
            Err(LaunchpadError::MarketCapNotReached)
        } else {
            Ok(Vesting { is_unlocked: true, unlock_timestamp: now, ..*self })
        }
    }

    /// The outcome of observing the market capitalisation on `curve`.
    pub open spec fn unlock_on_curve(
        &self,
        curve: EnhancedBondingCurve,
        caller: AccountKey,
        now: i64,
    ) -> Result<(Vesting, u64), LaunchpadError> {
        if caller@ != self.beneficiary@ {
            Err(LaunchpadError::Unauthorized)
        } else {
            match curve.price() {
                Err(e) => Err(e),
                Ok(price) => match self.unlock(
                    market_cap_of(price, curve.total_supply) as u64,
                    now,
                ) {
                    Err(e) => Err(e),
                    Ok(next) => Ok((next, market_cap_of(price, curve.total_supply) as u64)),
                },
            }
        }
    }

    /// The outcome of a claim by `caller` at `now`.
    pub open spec fn claim(&self, caller: AccountKey, now: i64) -> Result<u64, LaunchpadError> {
        if caller@ != self.beneficiary@ {
            Err(LaunchpadError::Unauthorized)
        } else if !self.is_unlocked {
            Err(LaunchpadError::NotUnlocked)
        } else if self.claimable(now) == 0 {
            Err(LaunchpadError::NothingToClaim)
        } else {
            Ok(self.claimable(now) as u64)
        }
    }

    /// Tokens already paid out of a funded schedule of which `in_custody` are
    /// still held.
    pub open spec fn paid_out(&self, in_custody: u64) -> int {
        sub_sat(self.amount as int, in_custody as int)
    }

    /// The outcome of a claim that pays what is released by `now` and was
    /// not paid before.
    pub open spec fn payout(&self, caller: AccountKey, now: i64, in_custody: u64) -> Result<
        u64,
        LaunchpadError,
    > {
        match self.claim(caller, now) {
            Err(e) => Err(e),
            Ok(claimable) => {
                if claimable <= self.paid_out(in_custody) {
                    Err(LaunchpadError::NothingToClaim)
                } else {
                    Ok((claimable - self.paid_out(in_custody)) as u64)
                }
            },
        }
    }

    /// How many tokens are released by `current_timestamp`. The amount says
    /// nothing of what was claimed before: the caller keeps that count.
    pub fn claimable_amount(&self, current_timestamp: i64) -> (claimable: u64)
        ensures
            claimable == self.claimable(current_timestamp),
            claimable <= self.amount,
            !self.is_unlocked ==> claimable == 0,
    {
        if !self.is_unlocked {
            return 0;
        }
        if current_timestamp >= self.end_timestamp {
            return self.amount;
        }
        if current_timestamp <= self.start_timestamp {
            return 0;
        }
        let total_period = (self.end_timestamp as i128 - self.start_timestamp as i128) as u64;
        let elapsed = (current_timestamp as i128 - self.start_timestamp as i128) as u64;
        proof {
            lemma_share_bounded(self.amount as int, elapsed as int, total_period as int);
        }
        saturating_mul_div(self.amount, elapsed, total_period)
    }
}

/// A share of `amount` for part of a period is a share of it for the whole
/// at most, which is `amount`.
pub proof fn lemma_share_bounded(amount: int, elapsed: int, total: int)
    requires
        0 <= amount,
        0 <= elapsed <= total,
        0 < total,
    ensures
        0 <= mul_div(amount, elapsed, total) <= amount,
{
    lemma_mul_sat_le(amount, elapsed);
    assert(amount * elapsed <= amount * total) by (nonlinear_arith)
        requires
            0 <= amount,
            0 <= elapsed <= total,
    ;
    lemma_div_is_ordered(0, mul_sat(amount, elapsed), total);
    lemma_div_is_ordered(mul_sat(amount, elapsed), amount * total, total);
    assert(amount * total == total * amount) by (nonlinear_arith);
    lemma_div_multiples_vanish(amount, total);
}

/// A new schedule, neither funded nor unlocked. It must start after `now`,
/// end after it starts, run for a permitted period and vest at least the
/// minimum amount.
pub fn initialize_vesting(
    beneficiary: AccountKey,
    token_mint: AccountKey,
    creator: AccountKey,
    amount: u64,
    start_time: i64,
    end_time: i64,
    target_market_cap: u64,
    now: i64,
    bump: u8,
) -> (r: Result<Vesting, LaunchpadError>)
    ensures
        match vesting_request_error(amount, start_time, end_time, now) {
            Some(e) => r == Err::<Vesting, LaunchpadError>(e),
            None => r == Ok::<Vesting, LaunchpadError>(
                Vesting {
                    beneficiary,
                    token_mint,
                    amount,
                    start_timestamp: start_time,
                    end_timestamp: end_time,
                    market_cap_target: target_market_cap,
                    is_deposited: false,
                    is_unlocked: false,
                    unlock_timestamp: 0,
                    creator,
                    bump,
                },
            ),
        },
        r is Ok ==> r->Ok_0.wf(),
{
    if start_time <= now {
        return Err(LaunchpadError::InvalidStartTime);
    }
    if end_time <= start_time {
        return Err(LaunchpadError::InvalidEndTime);
    }
    let duration: i128 = end_time as i128 - start_time as i128;
    if duration < MINIMUM_VESTING_PERIOD as i128 || duration > MAXIMUM_VESTING_PERIOD as i128 {
        return Err(LaunchpadError::InvalidDuration);
    }
    if amount < MINIMUM_AMOUNT {
        return Err(LaunchpadError::AmountTooLow);
    }
    Ok(
        Vesting {
            beneficiary,
            token_mint,
            amount,
            start_timestamp: start_time,
            end_timestamp: end_time,
            market_cap_target: target_market_cap,
            is_deposited: false,
            is_unlocked: false,
            unlock_timestamp: 0,
            creator,
            bump,
        },
    )
}

/// Funds a schedule with exactly its amount. On success the caller moves
/// `amount` into custody. On failure the schedule is untouched.
pub fn lock_tokens_for_vesting(vesting: &mut Vesting, amount: u64) -> (r: Result<
    (),
    LaunchpadError,
>)
    ensures
        match old(vesting).deposit(amount) {
            Ok(next) => r == Ok::<(), LaunchpadError>(()) && *final(vesting) == next,
            Err(e) => r == Err::<(), LaunchpadError>(e) && *final(vesting) == *old(vesting),
        },
        old(vesting).wf() ==> final(vesting).wf(),
{
    if amount != vesting.amount {
        return Err(LaunchpadError::InvalidVestingAmount);
    }
    if vesting.is_deposited {
        return Err(LaunchpadError::AlreadyLocked);
    }
    vesting.is_deposited = true;
    Ok(())
}

/// Unlocks a funded schedule when the observed market capitalisation has
/// reached its target, and records when. A schedule is unlocked once and
/// stays unlocked. On failure the schedule is untouched.
pub fn unlock_vested_tokens(vesting: &mut Vesting, current_market_cap: u64, now: i64) -> (r: Result<
    (),
    LaunchpadError,
>)
    ensures
        match old(vesting).unlock(current_market_cap, now) {
            Ok(next) => r == Ok::<(), LaunchpadError>(()) && *final(vesting) == next,
            Err(e) => r == Err::<(), LaunchpadError>(e) && *final(vesting) == *old(vesting),
        },
        old(vesting).wf() ==> final(vesting).wf(),
        old(vesting).is_unlocked ==> final(vesting).is_unlocked,
        r is Ok ==> current_market_cap >= old(vesting).market_cap_target,
{
    if !vesting.is_deposited {
        return Err(LaunchpadError::NotLocked);
    }
    if vesting.is_unlocked {
        return Err(LaunchpadError::AlreadyUnlocked);
    }
    if current_market_cap < vesting.market_cap_target {
        return Err(LaunchpadError::MarketCapNotReached);
    }
    vesting.is_unlocked = true;
    vesting.unlock_timestamp = now;
    Ok(())
}

/// Unlocks a schedule against the market capitalisation of its token's
/// curve, on the beneficiary's request, and returns the capitalisation
/// observed. On failure the schedule is untouched.
pub fn unlock_market_cap_vesting(
    vesting: &mut Vesting,
    curve: &EnhancedBondingCurve,
    caller: &AccountKey,
    now: i64,
) -> (r: Result<u64, LaunchpadError>)
    ensures
        match old(vesting).unlock_on_curve(*curve, *caller, now) {
            Ok((next, market_cap)) => r == Ok::<u64, LaunchpadError>(market_cap) && *final(vesting)
                == next,
            Err(e) => r == Err::<u64, LaunchpadError>(e) && *final(vesting) == *old(vesting),
        },
        old(vesting).wf() ==> final(vesting).wf(),
        old(vesting).is_unlocked ==> final(vesting).is_unlocked,
{
    if !caller.same_as(&vesting.beneficiary) {
        return Err(LaunchpadError::Unauthorized);
    }
    let market_cap = match curve.market_cap() {
        Err(e) => {
            return Err(e);
        },
        Ok(market_cap) => market_cap,
    };
    match unlock_vested_tokens(vesting, market_cap, now) {
        Err(e) => Err(e),
        Ok(()) => Ok(market_cap),
    }
}

/// The amount the beneficiary may hold by `now`. The caller pays out what
/// exceeds earlier claims.
pub fn claim_vested_tokens(vesting: &Vesting, caller: &AccountKey, now: i64) -> (r: Result<
    u64,
    LaunchpadError,
>)
    ensures
        r == vesting.claim(*caller, now),
        r is Ok ==> 0 < r->Ok_0 <= vesting.amount,
{
    if !caller.same_as(&vesting.beneficiary) {
        return Err(LaunchpadError::Unauthorized);
    }
    if !vesting.is_unlocked {
        return Err(LaunchpadError::NotUnlocked);
    }
    let claimable = vesting.claimable_amount(now);
    if claimable == 0 {
        return Err(LaunchpadError::NothingToClaim);
    }
    Ok(claimable)
}

/// The tokens a claim at `now` pays out, for a schedule of which `in_custody`
/// tokens are still held: what is released less what left custody before.
/// The payout never exceeds what custody holds.
pub fn claim_payout(vesting: &Vesting, caller: &AccountKey, now: i64, in_custody: u64) -> (r: Result<
    u64,
    LaunchpadError,
>)
    ensures
        r == vesting.payout(*caller, now, in_custody),
        r is Ok ==> 0 < r->Ok_0 <= in_custody && r->Ok_0 <= vesting.amount,
{
    let claimable = match claim_vested_tokens(vesting, caller, now) {
        Err(e) => {
            return Err(e);
        },
        Ok(claimable) => claimable,
    };
    let paid = vesting.amount.saturating_sub(in_custody);
    if claimable <= paid {
        return Err(LaunchpadError::NothingToClaim);
    }
    Ok(claimable - paid)
}

/// No token is paid twice: a payout brings what has left custody up to what
/// is released, so a second claim at that time finds nothing, and a later
/// one pays only what was released since.
pub proof fn lemma_no_double_payment(
    vesting: Vesting,
    caller: AccountKey,
    now: i64,
    later: i64,
    in_custody: u64,
)
    requires
        in_custody <= vesting.amount,
        now <= later,
        vesting.payout(caller, now, in_custody) is Ok,
    ensures
        vesting.paid_out(in_custody) + vesting.payout(caller, now, in_custody)->Ok_0
            == vesting.claimable(now),
        vesting.payout(
            caller,
            now,
            (in_custody - vesting.payout(caller, now, in_custody)->Ok_0) as u64,
        ) == Err::<u64, LaunchpadError>(LaunchpadError::NothingToClaim),
        vesting.payout(
            caller,
            later,
            (in_custody - vesting.payout(caller, now, in_custody)->Ok_0) as u64,
        ) is Ok ==> vesting.payout(
            caller,
            later,
            (in_custody - vesting.payout(caller, now, in_custody)->Ok_0) as u64,
        )->Ok_0 == vesting.claimable(later) - vesting.claimable(now),
{
    lemma_claimable_monotone(vesting, now, later);
}

/// The released amount never shrinks as time passes and never exceeds the
/// vested amount; while the schedule is not unlocked it is zero whatever the
/// time.
pub proof fn lemma_claimable_monotone(vesting: Vesting, earlier: i64, later: i64)
    requires
        earlier <= later,
    ensures
        0 <= vesting.claimable(earlier) <= vesting.claimable(later) <= vesting.amount,
        !vesting.is_unlocked ==> vesting.claimable(later) == 0,
{
    let start = vesting.start_timestamp as int;
    let end = vesting.end_timestamp as int;
    let amount = vesting.amount as int;
    if vesting.is_unlocked {
        if start < later < end {
            lemma_share_bounded(amount, later - start, end - start);
            if start < earlier {
                lemma_mul_div_monotone(amount, earlier - start, amount, later - start, end - start);
            }
        } else if start < earlier < end {
            lemma_share_bounded(amount, earlier - start, end - start);
        }
    }
}

/// Unlocking is one-way and happens once: an unlocked schedule refuses to be
/// unlocked again, and no observation below the target unlocks one.
pub proof fn lemma_unlock_once(vesting: Vesting, market_cap: u64, now: i64)
    ensures
        vesting.is_unlocked ==> vesting.unlock(market_cap, now) is Err,
        market_cap < vesting.market_cap_target ==> vesting.unlock(market_cap, now) is Err,
        vesting.unlock(market_cap, now) is Ok ==> vesting.unlock(market_cap, now)->Ok_0.is_unlocked
            && vesting.unlock(market_cap, now)->Ok_0.unlock_timestamp == now && vesting.unlock(
            market_cap,
            now,
        )->Ok_0.amount == vesting.amount,
        vesting.is_deposited && !vesting.is_unlocked && market_cap >= vesting.market_cap_target
            ==> vesting.unlock(market_cap, now) is Ok,
{
}

} // verus!
