use vstd::prelude::*;
use crate::account::AccountKey;
use crate::error::LaunchpadError;
use crate::math::add_sat;
use crate::math::integer_ln;
use crate::math::lemma_mul_div_monotone;
use crate::math::ln_floor;
use crate::math::mul_div;
use crate::math::mul_sat;
use crate::math::saturating_mul;
use crate::math::saturating_mul_div;
use crate::math::SCALE;

verus! {

/// `SCALE` squared: the numerator of the sigmoid.
pub const SIGMOID_NUMERATOR: u64 = 1_000_000_000_000;

/// Virtual payment reserve of a freshly launched curve.
pub const DEFAULT_VIRTUAL_SOL_RESERVES: u64 = 1_000_000;

/// Virtual token reserve of a freshly launched curve.
pub const DEFAULT_VIRTUAL_TOKEN_RESERVES: u64 = 1_000_000_000;

/// How the price of a launched token follows its supply.
#[derive(Clone, Copy, Debug, PartialEq, Eq, Structural)]
pub enum PriceRule {
    Linear,
    Exponential,
    Logarithmic,
    Sigmoid,
}

impl PriceRule {
    /// The rule a stored tag stands for.
    pub open spec fn of_tag(tag: u8) -> Option<PriceRule> {
        if tag == 0 {
            Some(PriceRule::Linear)
        } else if tag == 1 {
            Some(PriceRule::Exponential)
        } else if tag == 2 {
            Some(PriceRule::Logarithmic)
        } else if tag == 3 {
            Some(PriceRule::Sigmoid)
        } else {
            None
        }
    }

    pub fn from_tag(tag: u8) -> (r: Option<PriceRule>)
        ensures
            r == Self::of_tag(tag),
    {
        if tag == 0 {
            Some(PriceRule::Linear)
        } else if tag == 1 {
            Some(PriceRule::Exponential)
        } else if tag == 2 {
            Some(PriceRule::Logarithmic)
        } else if tag == 3 {
            Some(PriceRule::Sigmoid)
        } else {
            None
        }
    }
}

/// Where a launched token trades.
#[derive(Clone, Copy, Debug, PartialEq, Eq, Structural)]
pub enum PumpFunLaunchType {
    /// On a bonding curve of its own.
    BondingCurve,
    /// Directly on the external venue.
    DirectPumpFun,
}

impl PumpFunLaunchType {
    /// The launch type a stored tag stands for.
    pub open spec fn of_tag(tag: u8) -> Option<PumpFunLaunchType> {
        if tag == 0 {
            Some(PumpFunLaunchType::BondingCurve)
        } else if tag == 1 {
            Some(PumpFunLaunchType::DirectPumpFun)
        } else {
            None
        }
    }

    pub fn from_tag(tag: u8) -> (r: Option<PumpFunLaunchType>)
        ensures
            r == Self::of_tag(tag),
    {
        if tag == 0 {
            Some(PumpFunLaunchType::BondingCurve)
        } else if tag == 1 {
            Some(PumpFunLaunchType::DirectPumpFun)
        } else {
            None
        }
    }
}

/// The supply times the slope, in units of `SCALE`.
pub open spec fn supply_term(slope: u64, total_supply: u64) -> int {
    mul_div(total_supply as int, slope as int, SCALE as int)
}

/// The price under rule `rule`, for a supply the rule is defined on.
pub open spec fn rule_price(rule: PriceRule, initial_price: u64, slope: u64, total_supply: u64)
    -> int {
    match rule {
        PriceRule::Linear => add_sat(initial_price as int, supply_term(slope, total_supply)),
        PriceRule::Exponential => mul_div(
            initial_price as int,
            add_sat(supply_term(slope, total_supply), SCALE as int),
            SCALE as int,
        ),
        PriceRule::Logarithmic => add_sat(
            initial_price as int,
            mul_div(ln_floor(total_supply as nat) as int, slope as int, SCALE as int),
        ),
        PriceRule::Sigmoid => mul_div(
            initial_price as int,
            SIGMOID_NUMERATOR as int / add_sat(
                SCALE as int,
                mul_sat(supply_term(slope, total_supply), supply_term(slope, total_supply)),
            ),
            SCALE as int,
        ),
    }
}

/// The current price: that of the tagged rule, refused when the tag is
/// unknown or when the logarithmic rule meets a supply of zero.
pub open spec fn current_price_of(curve_type: u8, initial_price: u64, slope: u64, total_supply: u64)
    -> Result<u64, LaunchpadError> {
    match PriceRule::of_tag(curve_type) {
        None => Err(LaunchpadError::InvalidCurveType),
        Some(rule) => {
            if rule == PriceRule::Logarithmic && total_supply == 0 {
                Err(LaunchpadError::InvalidArgument)
            } else {
                Ok(rule_price(rule, initial_price, slope, total_supply) as u64)
            }
        },
    }
}

/// Price times supply, clamped to 64 bits.
pub open spec fn market_cap_of(current_price: u64, total_supply: u64) -> int {
    mul_sat(current_price as int, total_supply as int)
}

/// Market capitalisation from the current price and the supply.
pub fn calculate_market_cap(current_price: u64, total_supply: u64) -> (cap: u64)
    ensures
        cap == market_cap_of(current_price, total_supply),
{
    saturating_mul(current_price, total_supply)
}

/// The current price of a token from its curve parameters and supply.
pub fn calculate_current_price(curve_type: u8, initial_price: u64, slope: u64, total_supply: u64)
    -> (r: Result<u64, LaunchpadError>)
    ensures
        r == current_price_of(curve_type, initial_price, slope, total_supply),
{
    match PriceRule::from_tag(curve_type) {
        None => Err(LaunchpadError::InvalidCurveType),
        Some(PriceRule::Linear) => {
            Ok(initial_price.saturating_add(saturating_mul_div(total_supply, slope, SCALE)))
        },
        Some(PriceRule::Exponential) => {
            let exp_factor = saturating_mul_div(total_supply, slope, SCALE);
            Ok(saturating_mul_div(initial_price, exp_factor.saturating_add(SCALE), SCALE))
        },
        Some(PriceRule::Logarithmic) => {
            if total_supply == 0 {
                return Err(LaunchpadError::InvalidArgument);
            }
            let log_factor = saturating_mul_div(integer_ln(total_supply), slope, SCALE);
            Ok(initial_price.saturating_add(log_factor))
        },
        Some(PriceRule::Sigmoid) => {
            let x = saturating_mul_div(total_supply, slope, SCALE);
            let sigmoid = SIGMOID_NUMERATOR / SCALE.saturating_add(saturating_mul(x, x));
            Ok(saturating_mul_div(initial_price, sigmoid, SCALE))
        },
    }
}

/// A launched token's price curve and reserves.
#[derive(Clone, Copy, Debug)]
pub struct EnhancedBondingCurve {
    /// The account that may complete the curve.
    pub authority: AccountKey,
    pub token_mint: AccountKey,
    pub initial_price: u64,
    pub slope: u64,
    pub curve_type: u8,
    pub total_supply: u64,
    pub treasury_balance: u64,
    pub virtual_sol_reserves: u64,
    pub virtual_token_reserves: u64,
    pub real_sol_reserves: u64,
    pub real_token_reserves: u64,
    /// Once set, the curve is ready to move to the external venue.
    pub is_complete: bool,
    pub launch_timestamp: i64,
    pub bump: u8,
}

impl EnhancedBondingCurve {
    pub open spec fn price(&self) -> Result<u64, LaunchpadError> {
        current_price_of(self.curve_type, self.initial_price, self.slope, self.total_supply)
    }

    /// Tokens that `sol_amount` buys at price `price`.
    pub open spec fn tokens_quote(price: u64, sol_amount: u64) -> int {
        mul_div(sol_amount as int, SCALE as int, price as int)
    }

    /// Payment that `token_amount` sells for at price `price`.
    pub open spec fn sol_quote(price: u64, token_amount: u64) -> int {
        mul_div(token_amount as int, price as int, SCALE as int)
    }

    /// The quote for a purchase: refused when there is no price, when the
    /// price is zero, or when the quote exceeds the tokens in reserve.
    pub open spec fn tokens_out(&self, sol_amount: u64) -> Result<u64, LaunchpadError> {
        match self.price() {
            Err(e) => Err(e),
            Ok(price) => {
                if price == 0 {
                    Err(LaunchpadError::InvalidArgument)
                } else if Self::tokens_quote(price, sol_amount) > self.real_token_reserves {
                    Err(LaunchpadError::InsufficientReserve)
                } else {
                    Ok(Self::tokens_quote(price, sol_amount) as u64)
                }
            },
        }
    }

    /// The quote for a sale: refused when there is no price or when the quote
    /// exceeds the payment in reserve.
    pub open spec fn sol_out(&self, token_amount: u64) -> Result<u64, LaunchpadError> {
        match self.price() {
            Err(e) => Err(e),
            Ok(price) => {
                if Self::sol_quote(price, token_amount) > self.real_sol_reserves {
                    Err(LaunchpadError::InsufficientReserve)
                } else {
                    Ok(Self::sol_quote(price, token_amount) as u64)
                }
            },
        }
    }

    /// The curve once it is complete.
    pub open spec fn completed(&self) -> EnhancedBondingCurve {
        EnhancedBondingCurve { is_complete: true, ..*self }
    }

    /// The current price under the curve's rule.
    pub fn current_price(&self) -> (r: Result<u64, LaunchpadError>)
        ensures
            r == self.price(),
    {
        calculate_current_price(self.curve_type, self.initial_price, self.slope, self.total_supply)
    }

    /// The current price times the supply, clamped to 64 bits.
    pub fn market_cap(&self) -> (r: Result<u64, LaunchpadError>)
        ensures
            match self.price() {
                Ok(price) => r == Ok::<u64, LaunchpadError>(
                    market_cap_of(price, self.total_supply) as u64,
                ),
                Err(e) => r == Err::<u64, LaunchpadError>(e),
            },
    {
        match self.current_price() {
            Err(e) => Err(e),
            Ok(price) => Ok(calculate_market_cap(price, self.total_supply)),
        }
    }

    /// Tokens handed out for `sol_amount` at the current price.
    pub fn calculate_tokens_out(&self, sol_amount: u64) -> (r: Result<u64, LaunchpadError>)
        ensures
            r == self.tokens_out(sol_amount),
    {
        let price = match self.current_price() {
            Err(e) => {
                return Err(e);
            },
            Ok(price) => price,
        };
        if price == 0 {
            return Err(LaunchpadError::InvalidArgument);
        }
        let tokens = saturating_mul_div(sol_amount, SCALE, price);
        if tokens > self.real_token_reserves {
            Err(LaunchpadError::InsufficientReserve)
        } else {
            Ok(tokens)
        }
    }

    /// Payment handed out for `token_amount` at the current price.
    pub fn calculate_sol_out(&self, token_amount: u64) -> (r: Result<u64, LaunchpadError>)
        ensures
            r == self.sol_out(token_amount),
    {
        let price = match self.current_price() {
            Err(e) => {
                return Err(e);
            },
            Ok(price) => price,
        };
        let sol = saturating_mul_div(token_amount, price, SCALE);
        if sol > self.real_sol_reserves {
            Err(LaunchpadError::InsufficientReserve)
        } else {
            Ok(sol)
        }
    }
}

/// The record of a voice-verified launch.
#[derive(Clone, Copy, Debug)]
pub struct VoiceLaunch {
    pub creator: AccountKey,
    pub token_mint: AccountKey,
    /// Identifier of the transcript that verified the launch.
    pub deepgram_transcript_id: [u8; 64],
    pub launch_timestamp: i64,
    pub bump: u8,
}

/// The event a launch is announced with.
#[derive(Clone, Copy, Debug, PartialEq, Eq, Structural)]
pub enum LaunchEvent {
    VoiceLaunch,
    PumpFunLaunch,
}

/// What a launch produces: its record, its curve if it trades on one, and
/// the event to announce it with.
#[derive(Clone, Copy, Debug)]
pub struct LaunchOutcome {
    pub voice_launch: VoiceLaunch,
    pub curve: Option<EnhancedBondingCurve>,
    pub event: LaunchEvent,
}

/// The curve of a fresh launch: nothing issued, nothing collected, the
/// default virtual reserves, open to trading.
pub open spec fn launched_curve(
    creator: AccountKey,
    token_mint: AccountKey,
    initial_price: u64,
    slope: u64,
    curve_type: u8,
    now: i64,
    bump: u8,
) -> EnhancedBondingCurve {
    EnhancedBondingCurve {
        authority: creator,
        token_mint,
        initial_price,
        slope,
        curve_type,
        total_supply: 0,
        treasury_balance: 0,
        virtual_sol_reserves: DEFAULT_VIRTUAL_SOL_RESERVES,
        virtual_token_reserves: DEFAULT_VIRTUAL_TOKEN_RESERVES,
        real_sol_reserves: 0,
        real_token_reserves: 0,
        is_complete: false,
        launch_timestamp: now,
        bump,
    }
}

/// Launches a token. The launch is always recorded; a curve is created only
/// for a bonding-curve launch; a direct launch is announced as such and every
/// other launch as a voice launch. The caller publishes the token's
/// descriptor and emits the event.
pub fn launch_token_with_voice(
    creator: AccountKey,
    token_mint: AccountKey,
    deepgram_transcript_id: [u8; 64],
    initial_price: u64,
    slope: u64,
    curve_type: u8,
    launch_type: u8,
    now: i64,
    voice_launch_bump: u8,
    curve_bump: u8,
) -> (outcome: LaunchOutcome)
    ensures
        outcome.voice_launch == (VoiceLaunch {
            creator,
            token_mint,
            deepgram_transcript_id,
            launch_timestamp: now,
            bump: voice_launch_bump,
        }),
        outcome.curve == if PumpFunLaunchType::of_tag(launch_type) == Some(
            PumpFunLaunchType::BondingCurve,
        ) {
            Some(
                launched_curve(creator, token_mint, initial_price, slope, curve_type, now, curve_bump),
            )
        } else {
            None
        },
        outcome.event == if PumpFunLaunchType::of_tag(launch_type) == Some(
            PumpFunLaunchType::DirectPumpFun,
        ) {
            LaunchEvent::PumpFunLaunch
        } else {
            LaunchEvent::VoiceLaunch
        },
{
    let voice_launch = VoiceLaunch {
        creator,
        token_mint,
        deepgram_transcript_id,
        launch_timestamp: now,
        bump: voice_launch_bump,
    };
    let kind = PumpFunLaunchType::from_tag(launch_type);
    let curve = match kind {
        Some(PumpFunLaunchType::BondingCurve) => Some(
            EnhancedBondingCurve {
                authority: creator,
                token_mint,
                initial_price,
                slope,
                curve_type,
                total_supply: 0,
                treasury_balance: 0,
                virtual_sol_reserves: DEFAULT_VIRTUAL_SOL_RESERVES,
                virtual_token_reserves: DEFAULT_VIRTUAL_TOKEN_RESERVES,
                real_sol_reserves: 0,
                real_token_reserves: 0,
                is_complete: false,
                launch_timestamp: now,
                bump: curve_bump,
            },
        ),
        _ => None,
    };
    let event = match kind {
        Some(PumpFunLaunchType::DirectPumpFun) => LaunchEvent::PumpFunLaunch,
        _ => LaunchEvent::VoiceLaunch,
    };
    LaunchOutcome { voice_launch, curve, event }
}

/// Marks a curve complete. Only its authority may do so; completing a
/// complete curve succeeds and changes nothing.
pub fn complete_bonding_curve(curve: &mut EnhancedBondingCurve, caller: &AccountKey) -> (r: Result<
    (),
    LaunchpadError,
>)
    ensures
        caller@ == old(curve).authority@ ==> r.is_ok() && *final(curve) == old(curve).completed(),
        caller@ != old(curve).authority@ ==> r == Err::<(), LaunchpadError>(
            LaunchpadError::Unauthorized,
        ) && *final(curve) == *old(curve),
{
    if !caller.same_as(&curve.authority) {
        return Err(LaunchpadError::Unauthorized);
    }
    curve.is_complete = true;
    Ok(())
}

/// At a fixed price a larger payment never buys fewer tokens and a larger
/// sale never pays less; a trade that is quoted is quoted for every smaller
/// amount too, at no more.
pub proof fn lemma_quotes_monotone(curve: EnhancedBondingCurve, amount_a: u64, amount_b: u64)
    requires
        amount_a <= amount_b,
    ensures
        curve.tokens_out(amount_b) is Ok ==> curve.tokens_out(amount_a) is Ok && curve.tokens_out(
            amount_a,
        )->Ok_0 <= curve.tokens_out(amount_b)->Ok_0,
        curve.sol_out(amount_b) is Ok ==> curve.sol_out(amount_a) is Ok && curve.sol_out(
            amount_a,
        )->Ok_0 <= curve.sol_out(amount_b)->Ok_0,
{
    if curve.price() is Ok {
        let price = curve.price()->Ok_0 as int;
        if price > 0 {
            lemma_mul_div_monotone(
                amount_a as int,
                SCALE as int,
                amount_b as int,
                SCALE as int,
                price,
            );
        }
        lemma_mul_div_monotone(amount_a as int, price, amount_b as int, price, SCALE as int);
    }
}

/// Completing a curve twice is completing it once, and completing never
/// touches prices, supply or reserves.
pub proof fn lemma_complete_idempotent(curve: EnhancedBondingCurve)
    ensures
        curve.completed().completed() == curve.completed(),
        curve.completed().is_complete,
        curve.completed().real_sol_reserves == curve.real_sol_reserves,
        curve.completed().real_token_reserves == curve.real_token_reserves,
        curve.completed().virtual_sol_reserves == curve.virtual_sol_reserves,
        curve.completed().virtual_token_reserves == curve.virtual_token_reserves,
        curve.completed().total_supply == curve.total_supply,
        curve.completed().price() == curve.price(),
        curve.is_complete ==> curve.completed() == curve,
{
}

} // verus!
