use vstd::prelude::*;
use vstd::arithmetic::div_mod::lemma_div_is_ordered;
use vstd::arithmetic::div_mod::lemma_div_multiples_vanish;
use crate::account::AccountKey;
use crate::error::LaunchpadError;
use crate::math::add_sat;
use crate::math::lemma_div_mul_le;
use crate::math::lemma_mul_div_monotone;
use crate::math::lemma_mul_sat_le;
use crate::math::mul_sat;
use crate::math::mul_div;
use crate::math::saturating_mul_div;
use crate::math::BOOST_SCALE;
use crate::math::QUADRATIC_SELL_RATE;
use crate::math::RATE_SCALE;

verus! {

/// The pricing rule of a reserve curve.
#[derive(Clone, Copy, Debug, PartialEq, Eq, Structural)]
pub enum CurveType {
    /// A fixed number of tokens per unit paid.
    Linear,
    /// The linear rate, raised by a term that grows with the amount paid.
    Quadratic,
    /// The linear amount, scaled up by the share of the supply still in
    /// reserve.
    Exponential,
}

impl CurveType {
    /// The rule a stored tag stands for.
    pub open spec fn of_tag(tag: u8) -> Option<CurveType> {
        if tag == 0 {
            Some(CurveType::Linear)
        } else if tag == 1 {
            Some(CurveType::Quadratic)
        } else if tag == 2 {
            Some(CurveType::Exponential)
        } else {
            None
        }
    }

    /// The tag under which a rule is stored.
    pub open spec fn tag_of(self) -> u8 {
        match self {
            CurveType::Linear => 0,
            CurveType::Quadratic => 1,
            CurveType::Exponential => 2,
        }
    }

    pub fn from_tag(tag: u8) -> (r: Option<CurveType>)
        ensures
            r == Self::of_tag(tag),
    {
        if tag == 0 {
            Some(CurveType::Linear)
        } else if tag == 1 {
            Some(CurveType::Quadratic)
        } else if tag == 2 {
            Some(CurveType::Exponential)
        } else {
            None
        }
    }

    pub fn tag(&self) -> (t: u8)
        ensures
            t == self.tag_of(),
            Self::of_tag(t) == Some(*self),
    {
        match self {
            CurveType::Linear => 0,
            CurveType::Quadratic => 1,
            CurveType::Exponential => 2,
        }
    }
}

/// One launch's pricing parameters and live reserves.
#[derive(Clone, Copy, Debug)]
pub struct Curve {
    pub creator: AccountKey,
    pub mint: AccountKey,
    /// Fixed when the launch is created.
    pub total_supply: u64,
    /// Tokens the curve still holds for sale.
    pub reserve_token: u64,
    /// Payment collected from buyers and not yet paid back to sellers.
    pub reserve_sol: u64,
    pub curve_type: u8,
    /// Carried with the curve; the reserve rules price by `custom_params`.
    pub initial_price: u64,
    /// Carried with the curve; the reserve rules price by `custom_params`.
    pub slope: u64,
    /// `custom_params[0]` is the rate in tokens per `RATE_SCALE` units paid;
    /// `custom_params[1]` drives the second-order term of the quadratic and
    /// exponential rules; `custom_params[2]` is carried and not read.
    pub custom_params: [u64; 3],
    /// Once set, the curve is closed to trading for good.
    pub is_complete: bool,
    pub bump: u8,
}

/// A request to trade against a curve.
pub enum Trade {
    Buy { sol_amount: u64, max_sol_cost: u64 },
    Sell { token_amount: u64, min_sol_out: u64 },
}

impl Curve {
    /// The reserve never holds more tokens than were ever issued.
    pub open spec fn wf(&self) -> bool {
        self.reserve_token <= self.total_supply
    }

    pub open spec fn rate(&self) -> int {
        self.custom_params[0] as int
    }

    pub open spec fn boost(&self) -> int {
        self.custom_params[1] as int
    }

    /// How far the exponential rule scales a trade, in thousandths above par.
    pub open spec fn supply_factor(&self) -> int {
        mul_div(self.reserve_token as int, self.boost(), self.total_supply as int)
    }

    /// Tokens that `sol_amount` buys under rule `rule`, before the reserve is
    /// consulted.
    pub open spec fn tokens_quote(&self, rule: CurveType, sol_amount: int) -> int {
        match rule {
            CurveType::Linear => mul_div(sol_amount, self.rate(), RATE_SCALE as int),
            CurveType::Quadratic => mul_div(
                sol_amount,
                add_sat(self.rate(), mul_div(sol_amount, self.boost(), BOOST_SCALE as int)),
                RATE_SCALE as int,
            ),
            CurveType::Exponential => mul_div(
                mul_div(sol_amount, self.rate(), RATE_SCALE as int),
                add_sat(RATE_SCALE as int, self.supply_factor()),
                RATE_SCALE as int,
            ),
        }
    }

    /// Payment that `token_amount` sells for under rule `rule`, before the
    /// reserve is consulted.
    pub open spec fn sol_quote(&self, rule: CurveType, token_amount: int) -> int {
        match rule {
            CurveType::Linear => mul_div(token_amount, RATE_SCALE as int, self.rate()),
            CurveType::Quadratic => mul_div(
                mul_div(token_amount, RATE_SCALE as int, self.rate()),
                QUADRATIC_SELL_RATE as int,
                RATE_SCALE as int,
            ),
            CurveType::Exponential => mul_div(
                mul_div(
                    token_amount,
                    RATE_SCALE as int,
                    add_sat(RATE_SCALE as int, self.supply_factor()),
                ),
                RATE_SCALE as int,
                self.rate(),
            ),
        }
    }

    /// The quote for a purchase: the rule's amount, refused when the tag is
    /// unknown, when the rule divides by a zero supply, or when the reserve
    /// holds less than the amount.
    pub open spec fn tokens_out(&self, sol_amount: u64) -> Result<u64, LaunchpadError> {
        match CurveType::of_tag(self.curve_type) {
            None => Err(LaunchpadError::InvalidCurveType),
            Some(rule) => {
                if rule == CurveType::Exponential && self.total_supply == 0 {
                    Err(LaunchpadError::InvalidArgument)
                } else if self.tokens_quote(rule, sol_amount as int) > self.reserve_token {
                    Err(LaunchpadError::InsufficientReserve)
                } else {
                    Ok(self.tokens_quote(rule, sol_amount as int) as u64)
                }
            },
        }
    }

    /// The quote for a sale: the rule's amount, refused when the tag is
    /// unknown, when the rule divides by a zero rate or a zero supply, or when
    /// the reserve holds less than the amount.
    pub open spec fn sol_out(&self, token_amount: u64) -> Result<u64, LaunchpadError> {
        match CurveType::of_tag(self.curve_type) {
            None => Err(LaunchpadError::InvalidCurveType),
            Some(rule) => {
                if self.custom_params[0] == 0 || (rule == CurveType::Exponential
                    && self.total_supply == 0) {
                    Err(LaunchpadError::InvalidArgument)
                } else if self.sol_quote(rule, token_amount as int) > self.reserve_sol {
                    Err(LaunchpadError::InsufficientReserve)
                } else {
                    Ok(self.sol_quote(rule, token_amount as int) as u64)
                }
            },
        }
    }

    /// The outcome of a purchase: the tokens handed out and the curve after
    /// it, or the reason for refusing it.
    pub open spec fn buy(&self, sol_amount: u64, max_sol_cost: u64) -> Result<
        (Curve, u64),
        LaunchpadError,
    > {
        if self.is_complete {
            Err(LaunchpadError::CurveComplete)
        } else {
            match self.tokens_out(sol_amount) {
                Err(e) => Err(e),
                Ok(tokens) => {
                    if sol_amount > max_sol_cost {
                        Err(LaunchpadError::SlippageExceeded)
                    } else {
                        Ok(
                            (
                                Curve {
                                    reserve_token: (self.reserve_token - tokens) as u64,
                                    reserve_sol: add_sat(
                                        self.reserve_sol as int,
                                        sol_amount as int,
                                    ) as u64,
                                    ..*self
                                },
                                tokens,
                            ),
                        )
                    }
                },
            }
        }
    }

    /// The outcome of a sale: the payment handed out and the curve after it,
    /// or the reason for refusing it.
    pub open spec fn sell(&self, token_amount: u64, min_sol_out: u64) -> Result<
        (Curve, u64),
        LaunchpadError,
    > {
        if self.is_complete {
            Err(LaunchpadError::CurveComplete)
        } else {
            match self.sol_out(token_amount) {
                Err(e) => Err(e),
                Ok(sol) => {
                    if self.reserve_token + token_amount > self.total_supply {
                        Err(LaunchpadError::InvalidArgument)
                    } else if sol < min_sol_out {
                        Err(LaunchpadError::SlippageExceeded)
                    } else {
                        Ok(
                            (
                                Curve {
                                    reserve_token: (self.reserve_token + token_amount) as u64,
                                    reserve_sol: (self.reserve_sol - sol) as u64,
                                    ..*self
                                },
                                sol,
                            ),
                        )
                    }
                },
            }
        }
    }

    /// What comes back when `sol_amount` is paid for tokens and the tokens
    /// received are sold at once, neither trade bounded by the caller; `None`
    /// when either trade is refused.
    pub open spec fn round_trip(&self, sol_amount: u64) -> Option<u64> {
        match self.buy(sol_amount, sol_amount) {
            Err(_) => None,
            Ok((bought, tokens)) => match bought.sell(tokens, 0) {
                Err(_) => None,
                Ok((_, sol)) => Some(sol),
            },
        }
    }

    /// The curve once it is closed to trading.
    pub open spec fn completed(&self) -> Curve {
        Curve { is_complete: true, ..*self }
    }

    /// The curve after a trade request: changed as the trade says when it is
    /// accepted, as it was when it is refused.
    pub open spec fn after_trade(&self, trade: Trade) -> Curve {
        match trade {
            Trade::Buy { sol_amount, max_sol_cost } => match self.buy(sol_amount, max_sol_cost) {
                Ok((next, _)) => next,
                Err(_) => *self,
            },
            Trade::Sell { token_amount, min_sol_out } => match self.sell(
                token_amount,
                min_sol_out,
            ) {
                Ok((next, _)) => next,
                Err(_) => *self,
            },
        }
    }

    /// The curve after a run of trade requests, first to last.
    pub open spec fn after_trades(&self, trades: Seq<Trade>) -> Curve
        decreases trades.len(),
    {
        if trades.len() == 0 {
            *self
        } else {
            self.after_trades(trades.drop_last()).after_trade(trades.last())
        }
    }
}

/// A new curve with every token of the supply in reserve, nothing collected
/// and a starting price and slope of zero.
pub fn initialize_launch(
    creator: AccountKey,
    mint: AccountKey,
    total_supply: u64,
    curve_type: u8,
    custom_params: [u64; 3],
    bump: u8,
) -> (curve: Curve)
    ensures
        curve == (Curve {
            creator,
            mint,
            total_supply,
            reserve_token: total_supply,
            reserve_sol: 0,
            curve_type,
            initial_price: 0,
            slope: 0,
            custom_params,
            is_complete: false,
            bump,
        }),
        curve.wf(),
{
    Curve {
        creator,
        mint,
        total_supply,
        reserve_token: total_supply,
        reserve_sol: 0,
        curve_type,
        initial_price: 0,
        slope: 0,
        custom_params,
        is_complete: false,
        bump,
    }
}

/// Tokens handed out for `sol_amount`. Reads the curve and changes nothing.
pub fn calculate_tokens_out(curve: &Curve, sol_amount: u64) -> (r: Result<u64, LaunchpadError>)
    ensures
        r == curve.tokens_out(sol_amount),
{
    let rate = curve.custom_params[0];
    let boost = curve.custom_params[1];
    let tokens_out = match CurveType::from_tag(curve.curve_type) {
        None => {
            return Err(LaunchpadError::InvalidCurveType);
        },
        Some(CurveType::Linear) => saturating_mul_div(sol_amount, rate, RATE_SCALE),
        Some(CurveType::Quadratic) => {
            let quadratic_component = saturating_mul_div(sol_amount, boost, BOOST_SCALE);
            saturating_mul_div(sol_amount, rate.saturating_add(quadratic_component), RATE_SCALE)
        },
        Some(CurveType::Exponential) => {
            if curve.total_supply == 0 {
                return Err(LaunchpadError::InvalidArgument);
            }
            let base_tokens = saturating_mul_div(sol_amount, rate, RATE_SCALE);
            let supply_factor = saturating_mul_div(curve.reserve_token, boost, curve.total_supply);
            saturating_mul_div(base_tokens, RATE_SCALE.saturating_add(supply_factor), RATE_SCALE)
        },
    };
    if tokens_out > curve.reserve_token {
        Err(LaunchpadError::InsufficientReserve)
    } else {
        Ok(tokens_out)
    }
}

/// Payment handed out for `token_amount`. Reads the curve and changes
/// nothing.
pub fn calculate_sol_out(curve: &Curve, token_amount: u64) -> (r: Result<u64, LaunchpadError>)
    ensures
        r == curve.sol_out(token_amount),
{
    let rate = curve.custom_params[0];
    let boost = curve.custom_params[1];
    let rule = match CurveType::from_tag(curve.curve_type) {
        None => {
            return Err(LaunchpadError::InvalidCurveType);
        },
        Some(rule) => rule,
    };
    if rate == 0 {
        return Err(LaunchpadError::InvalidArgument);
    }
    let sol_out = match rule {
        CurveType::Linear => saturating_mul_div(token_amount, RATE_SCALE, rate),
        CurveType::Quadratic => {
            let base_sol = saturating_mul_div(token_amount, RATE_SCALE, rate);
            saturating_mul_div(base_sol, QUADRATIC_SELL_RATE, RATE_SCALE)
        },
        CurveType::Exponential => {
            if curve.total_supply == 0 {
                return Err(LaunchpadError::InvalidArgument);
            }
            let supply_factor = saturating_mul_div(curve.reserve_token, boost, curve.total_supply);
            let scale = RATE_SCALE.saturating_add(supply_factor);
            let adjusted_tokens = saturating_mul_div(token_amount, RATE_SCALE, scale);
            saturating_mul_div(adjusted_tokens, RATE_SCALE, rate)
        },
    };
    if sol_out > curve.reserve_sol {
        Err(LaunchpadError::InsufficientReserve)
    } else {
        Ok(sol_out)
    }
}

/// Buys tokens for `amount`. On success the tokens leave the reserve, the
/// payment joins it, and the caller moves `amount` in and the returned
/// tokens out. On failure the curve is untouched.
pub fn buy_tokens(curve: &mut Curve, amount: u64, max_sol_cost: u64) -> (r: Result<
    u64,
    LaunchpadError,
>)
    ensures
        match old(curve).buy(amount, max_sol_cost) {
            Ok((next, tokens)) => r == Ok::<u64, LaunchpadError>(tokens) && *final(curve) == next,
            Err(e) => r == Err::<u64, LaunchpadError>(e) && *final(curve) == *old(curve),
        },
        old(curve).wf() ==> final(curve).wf(),
        final(curve).total_supply == old(curve).total_supply,
        final(curve).reserve_token <= old(curve).reserve_token,
        final(curve).reserve_sol >= old(curve).reserve_sol,
{
    if curve.is_complete {
        return Err(LaunchpadError::CurveComplete);
    }
    let tokens_out = match calculate_tokens_out(curve, amount) {
        Err(e) => {
            return Err(e);
        },
        Ok(tokens_out) => tokens_out,
    };
    if amount > max_sol_cost {
        return Err(LaunchpadError::SlippageExceeded);
    }
    curve.reserve_token = curve.reserve_token - tokens_out;
    curve.reserve_sol = curve.reserve_sol.saturating_add(amount);
    Ok(tokens_out)
}

/// Sells `amount` tokens back. On success the tokens rejoin the reserve, the
/// payment leaves it, and the caller moves `amount` tokens in and the
/// returned payment out. On failure the curve is untouched.
pub fn sell_tokens(curve: &mut Curve, amount: u64, min_sol_out: u64) -> (r: Result<
    u64,
    LaunchpadError,
>)
    ensures
        match old(curve).sell(amount, min_sol_out) {
            Ok((next, sol)) => r == Ok::<u64, LaunchpadError>(sol) && *final(curve) == next,
            Err(e) => r == Err::<u64, LaunchpadError>(e) && *final(curve) == *old(curve),
        },
        old(curve).wf() ==> final(curve).wf(),
        final(curve).total_supply == old(curve).total_supply,
        final(curve).reserve_token >= old(curve).reserve_token,
        final(curve).reserve_sol <= old(curve).reserve_sol,
{
    if curve.is_complete {
        return Err(LaunchpadError::CurveComplete);
    }
    let sol_out = match calculate_sol_out(curve, amount) {
        Err(e) => {
            return Err(e);
        },
        Ok(sol_out) => sol_out,
    };
    let reserve_token = match curve.reserve_token.checked_add(amount) {
        None => {
            return Err(LaunchpadError::InvalidArgument);
        },
        Some(reserve_token) => reserve_token,
    };
    if reserve_token > curve.total_supply {
        return Err(LaunchpadError::InvalidArgument);
    }
    if sol_out < min_sol_out {
        return Err(LaunchpadError::SlippageExceeded);
    }
    curve.reserve_token = reserve_token;
    curve.reserve_sol = curve.reserve_sol - sol_out;
    Ok(sol_out)
}

/// Closes the curve to trading. Only the creator may do so; closing a closed
/// curve succeeds and changes nothing.
pub fn complete_curve(curve: &mut Curve, caller: &AccountKey) -> (r: Result<(), LaunchpadError>)
    ensures
        caller@ == old(curve).creator@ ==> r.is_ok() && *final(curve) == old(curve).completed(),
        caller@ != old(curve).creator@ ==> r == Err::<(), LaunchpadError>(
            LaunchpadError::Unauthorized,
        ) && *final(curve) == *old(curve),
{
    if !caller.same_as(&curve.creator) {
        return Err(LaunchpadError::Unauthorized);
    }
    curve.is_complete = true;
    Ok(())
}

/// A larger payment never buys fewer tokens: the quote of every rule grows
/// with the amount paid, and a purchase that is quoted is quoted for every
/// smaller payment too, at no more tokens.
pub proof fn lemma_tokens_out_monotone(curve: Curve, rule: CurveType, sol_a: u64, sol_b: u64)
    requires
        sol_a <= sol_b,
    ensures
        0 <= curve.tokens_quote(rule, sol_a as int) <= curve.tokens_quote(rule, sol_b as int),
        curve.tokens_out(sol_b) is Ok ==> curve.tokens_out(sol_a) is Ok && curve.tokens_out(
            sol_a,
        )->Ok_0 <= curve.tokens_out(sol_b)->Ok_0,
{
    lemma_tokens_quote_monotone(curve, CurveType::Linear, sol_a, sol_b);
    lemma_tokens_quote_monotone(curve, CurveType::Quadratic, sol_a, sol_b);
    lemma_tokens_quote_monotone(curve, CurveType::Exponential, sol_a, sol_b);
}

proof fn lemma_tokens_quote_monotone(curve: Curve, rule: CurveType, sol_a: u64, sol_b: u64)
    requires
        sol_a <= sol_b,
    ensures
        0 <= curve.tokens_quote(rule, sol_a as int) <= curve.tokens_quote(rule, sol_b as int)
            <= u64::MAX,
{
    let a = sol_a as int;
    let b = sol_b as int;
    let scale = RATE_SCALE as int;
    match rule {
        CurveType::Linear => {
            lemma_mul_div_monotone(a, curve.rate(), b, curve.rate(), scale);
        },
        CurveType::Quadratic => {
            lemma_mul_div_monotone(a, curve.boost(), b, curve.boost(), BOOST_SCALE as int);
            let rate_a = add_sat(curve.rate(), mul_div(a, curve.boost(), BOOST_SCALE as int));
            let rate_b = add_sat(curve.rate(), mul_div(b, curve.boost(), BOOST_SCALE as int));
            lemma_mul_div_monotone(a, rate_a, b, rate_b, scale);
        },
        CurveType::Exponential => {
            lemma_mul_div_monotone(a, curve.rate(), b, curve.rate(), scale);
            let factor = add_sat(scale, curve.supply_factor());
            lemma_mul_div_monotone(
                mul_div(a, curve.rate(), scale),
                factor,
                mul_div(b, curve.rate(), scale),
                factor,
                scale,
            );
        },
    }
}

/// A larger sale never pays less: where the rule divides by neither a zero
/// rate nor a zero supply its quote grows with the tokens sold, and a sale that is quoted is
/// quoted for every smaller amount too, at no more payment.
pub proof fn lemma_sol_out_monotone(curve: Curve, rule: CurveType, tokens_a: u64, tokens_b: u64)
    requires
        tokens_a <= tokens_b,
    ensures
        curve.rate() > 0 && (rule == CurveType::Exponential ==> curve.total_supply > 0) ==> 0
            <= curve.sol_quote(rule, tokens_a as int) <= curve.sol_quote(rule, tokens_b as int),
        curve.sol_out(tokens_b) is Ok ==> curve.sol_out(tokens_a) is Ok && curve.sol_out(
            tokens_a,
        )->Ok_0 <= curve.sol_out(tokens_b)->Ok_0,
{
    if curve.rate() > 0 {
        lemma_sol_quote_monotone(curve, CurveType::Linear, tokens_a, tokens_b);
        lemma_sol_quote_monotone(curve, CurveType::Quadratic, tokens_a, tokens_b);
        if curve.total_supply > 0 {
            lemma_sol_quote_monotone(curve, CurveType::Exponential, tokens_a, tokens_b);
        }
    }
}

proof fn lemma_sol_quote_monotone(curve: Curve, rule: CurveType, tokens_a: u64, tokens_b: u64)
    requires
        tokens_a <= tokens_b,
        curve.rate() > 0,
        rule == CurveType::Exponential ==> curve.total_supply > 0,
    ensures
        0 <= curve.sol_quote(rule, tokens_a as int) <= curve.sol_quote(rule, tokens_b as int)
            <= u64::MAX,
{
    let a = tokens_a as int;
    let b = tokens_b as int;
    let scale = RATE_SCALE as int;
    match rule {
        CurveType::Linear => {
            lemma_mul_div_monotone(a, scale, b, scale, curve.rate());
        },
        CurveType::Quadratic => {
            lemma_mul_div_monotone(a, scale, b, scale, curve.rate());
            lemma_mul_div_monotone(
                mul_div(a, scale, curve.rate()),
                QUADRATIC_SELL_RATE as int,
                mul_div(b, scale, curve.rate()),
                QUADRATIC_SELL_RATE as int,
                scale,
            );
        },
        CurveType::Exponential => {
            lemma_mul_div_monotone(
                curve.reserve_token as int,
                curve.boost(),
                curve.reserve_token as int,
                curve.boost(),
                curve.total_supply as int,
            );
            let factor = add_sat(scale, curve.supply_factor());
            lemma_mul_div_monotone(a, scale, b, scale, factor);
            lemma_mul_div_monotone(
                mul_div(a, scale, factor),
                scale,
                mul_div(b, scale, factor),
                scale,
                curve.rate(),
            );
        },
    }
}

/// Whatever trades are requested, in whatever order, the reserve stays
/// within the supply, the supply stays fixed, and a closed curve stays
/// closed.
pub proof fn lemma_reserves_stay_in_bounds(curve: Curve, trades: Seq<Trade>)
    requires
        curve.wf(),
    ensures
        curve.after_trades(trades).wf(),
        0 <= curve.after_trades(trades).reserve_token <= curve.total_supply,
        0 <= curve.after_trades(trades).reserve_sol,
        curve.after_trades(trades).total_supply == curve.total_supply,
        curve.after_trades(trades).is_complete == curve.is_complete,
        curve.is_complete ==> curve.after_trades(trades) == curve,
    decreases trades.len(),
{
    if trades.len() > 0 {
        lemma_reserves_stay_in_bounds(curve, trades.drop_last());
    }
}

/// Buying and at once selling the tokens received pays back no more than
/// was paid, on the quadratic rule, when the curve held no payment before
/// the purchase or when nineteen times the second-order term of the purchase
/// rate is within the base rate, so that the sale's five percent discount
/// covers it.
pub proof fn lemma_quadratic_round_trip_no_gain(curve: Curve, sol_amount: u64)
    requires
        CurveType::of_tag(curve.curve_type) == Some(CurveType::Quadratic),
        curve.reserve_sol == 0 || 19 * mul_div(
            sol_amount as int,
            curve.boost(),
            BOOST_SCALE as int,
        ) <= curve.rate(),
    ensures
        curve.round_trip(sol_amount) is Some ==> curve.round_trip(sol_amount)->Some_0
            <= sol_amount,
{
    if curve.round_trip(sol_amount) is Some {
        let (bought, tokens) = curve.buy(sol_amount, sol_amount)->Ok_0;
        let sol_back = curve.round_trip(sol_amount)->Some_0;
        assert(bought.sol_out(tokens) == Ok::<u64, LaunchpadError>(sol_back));
        if curve.reserve_sol != 0 {
            let s = sol_amount as int;
            let rate = curve.rate();
            let q = mul_div(s, curve.boost(), BOOST_SCALE as int);
            let r = add_sat(rate, q);
            let t = tokens as int;
            let base = mul_div(t, 1000, rate);
            assert(bought.rate() == rate);
            lemma_mul_div_monotone(s, curve.boost(), s, curve.boost(), BOOST_SCALE as int);
            lemma_mul_sat_le(s, r);
            lemma_div_mul_le(mul_sat(s, r), 1000);
            lemma_mul_sat_le(t, 1000);
            lemma_div_mul_le(mul_sat(t, 1000), rate);
            assert(base * 950 <= s * 1000) by (nonlinear_arith)
                requires
                    base * rate <= s * r,
                    0 <= r <= rate + q,
                    19 * q <= rate,
                    0 < rate,
                    0 <= s,
                    0 <= base,
                    0 <= q,
            ;
            lemma_mul_sat_le(base, 950);
            lemma_div_is_ordered(mul_sat(base, 950), s * 1000, 1000);
        }
    }
}

/// On the linear rule, buying and at once selling the tokens received pays
/// back no more than was paid.
pub proof fn lemma_linear_round_trip_no_gain(curve: Curve, sol_amount: u64)
    requires
        CurveType::of_tag(curve.curve_type) == Some(CurveType::Linear),
    ensures
        curve.round_trip(sol_amount) is Some ==> curve.round_trip(sol_amount)->Some_0
            <= sol_amount,
{
    if curve.round_trip(sol_amount) is Some {
        let (bought, tokens) = curve.buy(sol_amount, sol_amount)->Ok_0;
        let sol_back = curve.round_trip(sol_amount)->Some_0;
        assert(bought.sol_out(tokens) == Ok::<u64, LaunchpadError>(sol_back));
        let s = sol_amount as int;
        let rate = curve.rate();
        let t = tokens as int;
        assert(bought.rate() == rate);
        lemma_mul_sat_le(s, rate);
        lemma_div_mul_le(mul_sat(s, rate), 1000);
        lemma_mul_sat_le(t, 1000);
        assert(s * rate == rate * s) by (nonlinear_arith);
        lemma_div_is_ordered(mul_sat(t, 1000), rate * s, rate);
        lemma_div_multiples_vanish(s, rate);
    }
}

/// Closing a curve twice is closing it once, and closing never touches the
/// reserves or the supply.
pub proof fn lemma_complete_idempotent(curve: Curve)
    ensures
        curve.completed().completed() == curve.completed(),
        curve.completed().is_complete,
        curve.completed().reserve_token == curve.reserve_token,
        curve.completed().reserve_sol == curve.reserve_sol,
        curve.completed().total_supply == curve.total_supply,
        curve.is_complete ==> curve.completed() == curve,
{
}

} // verus!
