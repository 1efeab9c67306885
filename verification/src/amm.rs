use vstd::prelude::*;
use crate::account::AccountKey;
use crate::error::LaunchpadError;
use crate::math::add_sat;
use crate::math::lemma_div_antitone;
use crate::math::lemma_mul_sat_le;
use crate::math::mul_sat;
use crate::math::saturating_mul;
use crate::math::sub_sat;

verus! {

/// Launch-wide defaults, fixed when the launchpad is set up and handed to
/// the operations that need them.
#[derive(Clone, Copy, Debug)]
pub struct Global {
    pub initialized: bool,
    pub authority: AccountKey,
    pub fee_recipient: AccountKey,
    pub initial_virtual_token_reserves: u64,
    pub initial_virtual_sol_reserves: u64,
    pub initial_real_token_reserves: u64,
    pub fee_basis_points: u64,
}

/// The stored state of a constant-product curve.
#[derive(Clone, Copy, Debug)]
pub struct BondingCurve {
    pub virtual_sol_reserves: u64,
    pub virtual_token_reserves: u64,
    pub real_sol_reserves: u64,
    pub real_token_reserves: u64,
    pub token_total_supply: u64,
    /// Once set, the curve is closed to trading for good.
    pub complete: bool,
}

/// The reserves a constant-product purchase is priced on. The virtual
/// reserves only price; the real reserves follow what is in custody.
#[derive(Clone, Copy, Debug)]
pub struct AMM {
    pub virtual_sol_reserves: u64,
    pub virtual_token_reserves: u64,
    pub real_sol_reserves: u64,
    pub real_token_reserves: u64,
    pub initial_virtual_token_reserves: u64,
}

/// What a purchase hands out and what it costs.
#[derive(Clone, Copy, Debug, PartialEq, Eq, Structural)]
pub struct BuyResult {
    pub token_amount: u64,
    pub sol_amount: u64,
}

/// The tokens a request is granted: the request, capped by the real reserve.
pub open spec fn granted_tokens(real_token_reserves: u64, token_amount: u64) -> int {
    if token_amount > real_token_reserves {
        real_token_reserves as int
    } else {
        token_amount as int
    }
}

/// Virtual tokens left once the granted tokens are taken out.
pub open spec fn remaining_virtual_tokens(
    virtual_token_reserves: u64,
    real_token_reserves: u64,
    token_amount: u64,
) -> int {
    sub_sat(virtual_token_reserves as int, granted_tokens(real_token_reserves, token_amount))
}

/// The payment that keeps the product of the virtual reserves from falling:
/// the product over the remaining virtual tokens, plus one, less the virtual
/// payment reserve; zero where that is not positive.
pub open spec fn buy_cost(
    virtual_sol_reserves: u64,
    virtual_token_reserves: u64,
    real_token_reserves: u64,
    token_amount: u64,
) -> int
    recommends
        remaining_virtual_tokens(virtual_token_reserves, real_token_reserves, token_amount) > 0,
{
    sub_sat(
        add_sat(
            mul_sat(virtual_sol_reserves as int, virtual_token_reserves as int)
                / remaining_virtual_tokens(
                virtual_token_reserves,
                real_token_reserves,
                token_amount,
            ),
            1,
        ),
        virtual_sol_reserves as int,
    )
}

impl AMM {
    pub open spec fn cost(&self, token_amount: u64) -> int {
        buy_cost(
            self.virtual_sol_reserves,
            self.virtual_token_reserves,
            self.real_token_reserves,
            token_amount,
        )
    }

    pub open spec fn remaining(&self, token_amount: u64) -> int {
        remaining_virtual_tokens(
            self.virtual_token_reserves,
            self.real_token_reserves,
            token_amount,
        )
    }

    /// The outcome of a purchase: the state the reserves move to once it is
    /// carried out, and what it hands out and costs; refused when no virtual
    /// tokens would remain to divide by.
    pub open spec fn buy(&self, token_amount: u64) -> Result<(AMM, BuyResult), LaunchpadError> {
        if self.remaining(token_amount) == 0 {
            Err(LaunchpadError::InvalidArgument)
        } else {
            Ok(
                (
                    AMM {
                        virtual_sol_reserves: (self.virtual_sol_reserves + self.cost(
                            token_amount,
                        )) as u64,
                        virtual_token_reserves: self.remaining(token_amount) as u64,
                        real_sol_reserves: add_sat(
                            self.real_sol_reserves as int,
                            self.cost(token_amount),
                        ) as u64,
                        real_token_reserves: (self.real_token_reserves - granted_tokens(
                            self.real_token_reserves,
                            token_amount,
                        )) as u64,
                        ..*self
                    },
                    BuyResult {
                        token_amount: granted_tokens(self.real_token_reserves, token_amount) as u64,
                        sol_amount: self.cost(token_amount) as u64,
                    },
                ),
            )
        }
    }

    /// Prices a purchase of `token_amount`: the tokens granted and what they
    /// cost. Reads the reserves and changes nothing; the ledger operation
    /// moves them.
    pub fn apply_buy(&self, token_amount: u64) -> (r: Result<BuyResult, LaunchpadError>)
        ensures
            match self.buy(token_amount) {
                Ok((_, result)) => r == Ok::<BuyResult, LaunchpadError>(result),
                Err(e) => r == Err::<BuyResult, LaunchpadError>(e),
            },
            r is Ok ==> r->Ok_0.token_amount <= token_amount && r->Ok_0.token_amount
                <= self.real_token_reserves,
    {
        let final_token_amount = if token_amount > self.real_token_reserves {
            self.real_token_reserves
        } else {
            token_amount
        };
        let product = saturating_mul(self.virtual_sol_reserves, self.virtual_token_reserves);
        let new_virtual_token_reserves = self.virtual_token_reserves.saturating_sub(
            final_token_amount,
        );
        if new_virtual_token_reserves == 0 {
            return Err(LaunchpadError::InvalidArgument);
        }
        let new_virtual_sol_reserves = (product / new_virtual_token_reserves).saturating_add(1);
        let sol_amount = new_virtual_sol_reserves.saturating_sub(self.virtual_sol_reserves);
        Ok(BuyResult { token_amount: final_token_amount, sol_amount })
    }
}

impl BondingCurve {
    /// The real reserve never holds more tokens than were ever issued.
    pub open spec fn wf(&self) -> bool {
        self.real_token_reserves <= self.token_total_supply
    }

    /// The working state of a purchase on this curve.
    pub open spec fn amm(&self, global: Global) -> AMM {
        AMM {
            virtual_sol_reserves: self.virtual_sol_reserves,
            virtual_token_reserves: self.virtual_token_reserves,
            real_sol_reserves: self.real_sol_reserves,
            real_token_reserves: self.real_token_reserves,
            initial_virtual_token_reserves: global.initial_virtual_token_reserves,
        }
    }

    /// The outcome of a purchase: refused on a complete curve, when the
    /// pricing refuses it, or when it costs more than the caller allows.
    pub open spec fn buy(&self, global: Global, amount: u64, max_sol_cost: u64) -> Result<
        (BondingCurve, BuyResult),
        LaunchpadError,
    > {
        if self.complete {
            Err(LaunchpadError::CurveComplete)
        } else {
            match self.amm(global).buy(amount) {
                Err(e) => Err(e),
                Ok((amm, result)) => {
                    if result.sol_amount > max_sol_cost {
                        Err(LaunchpadError::SlippageExceeded)
                    } else {
                        Ok(
                            (
                                BondingCurve {
                                    virtual_sol_reserves: amm.virtual_sol_reserves,
                                    virtual_token_reserves: amm.virtual_token_reserves,
                                    real_sol_reserves: amm.real_sol_reserves,
                                    real_token_reserves: amm.real_token_reserves,
                                    ..*self
                                },
                                result,
                            ),
                        )
                    }
                },
            }
        }
    }
}

/// The launchpad's configuration record.
pub fn initialize(
    authority: AccountKey,
    fee_recipient: AccountKey,
    fee_basis_points: u64,
    initial_virtual_token_reserves: u64,
    initial_virtual_sol_reserves: u64,
    initial_real_token_reserves: u64,
) -> (global: Global)
    ensures
        global == (Global {
            initialized: true,
            authority,
            fee_recipient,
            initial_virtual_token_reserves,
            initial_virtual_sol_reserves,
            initial_real_token_reserves,
            fee_basis_points,
        }),
{
    Global {
        initialized: true,
        authority,
        fee_recipient,
        initial_virtual_token_reserves,
        initial_virtual_sol_reserves,
        initial_real_token_reserves,
        fee_basis_points,
    }
}

/// Buys up to `amount` tokens for at most `max_sol_cost`. On success the
/// reserves move and the caller moves the payment in and the tokens out. On
/// failure the curve is untouched.
pub fn buy_tokens(
    bonding_curve: &mut BondingCurve,
    global: &Global,
    amount: u64,
    max_sol_cost: u64,
) -> (r: Result<BuyResult, LaunchpadError>)
    ensures
        match old(bonding_curve).buy(*global, amount, max_sol_cost) {
            Ok((next, result)) => r == Ok::<BuyResult, LaunchpadError>(result) && *final(bonding_curve) == next,
            Err(e) => r == Err::<BuyResult, LaunchpadError>(e) && *final(bonding_curve) == *old(bonding_curve),
        },
        old(bonding_curve).wf() ==> final(bonding_curve).wf(),
        final(bonding_curve).real_token_reserves <= old(bonding_curve).real_token_reserves,
        final(bonding_curve).real_sol_reserves >= old(bonding_curve).real_sol_reserves,
        final(bonding_curve).token_total_supply == old(bonding_curve).token_total_supply,
        final(bonding_curve).complete == old(bonding_curve).complete,
        r is Ok ==> r->Ok_0.sol_amount <= max_sol_cost && r->Ok_0.token_amount <= amount,
{
    if bonding_curve.complete {
        return Err(LaunchpadError::CurveComplete);
    }
    let amm = AMM {
        virtual_sol_reserves: bonding_curve.virtual_sol_reserves,
        virtual_token_reserves: bonding_curve.virtual_token_reserves,
        real_sol_reserves: bonding_curve.real_sol_reserves,
        real_token_reserves: bonding_curve.real_token_reserves,
        initial_virtual_token_reserves: global.initial_virtual_token_reserves,
    };
    let buy_result = match amm.apply_buy(amount) {
        Err(e) => {
            return Err(e);
        },
        Ok(buy_result) => buy_result,
    };
    if buy_result.sol_amount > max_sol_cost {
        return Err(LaunchpadError::SlippageExceeded);
    }
    bonding_curve.virtual_sol_reserves = amm.virtual_sol_reserves + buy_result.sol_amount;
    bonding_curve.virtual_token_reserves = amm.virtual_token_reserves.saturating_sub(
        buy_result.token_amount,
    );
    bonding_curve.real_sol_reserves = amm.real_sol_reserves.saturating_add(buy_result.sol_amount);
    bonding_curve.real_token_reserves = amm.real_token_reserves - buy_result.token_amount;
    Ok(buy_result)
}

/// Asking for more tokens never costs less, as long as virtual tokens remain
/// to divide by.
pub proof fn lemma_buy_cost_monotone(amm: AMM, tokens_a: u64, tokens_b: u64)
    requires
        tokens_a <= tokens_b,
        amm.remaining(tokens_b) > 0,
    ensures
        amm.remaining(tokens_a) > 0,
        0 <= amm.cost(tokens_a) <= amm.cost(tokens_b),
        granted_tokens(amm.real_token_reserves, tokens_a) <= granted_tokens(
            amm.real_token_reserves,
            tokens_b,
        ),
{
    let product = mul_sat(amm.virtual_sol_reserves as int, amm.virtual_token_reserves as int);
    lemma_mul_sat_le(amm.virtual_sol_reserves as int, amm.virtual_token_reserves as int);
    lemma_div_antitone(product, amm.remaining(tokens_b), amm.remaining(tokens_a));
}

/// A purchase never lowers the product of the virtual reserves, unless that
/// product is beyond 64 bits.
pub proof fn lemma_buy_keeps_product(amm: AMM, token_amount: u64)
    requires
        amm.buy(token_amount) is Ok,
        amm.virtual_sol_reserves * amm.virtual_token_reserves <= u64::MAX,
    ensures
        amm.buy(token_amount)->Ok_0.0.virtual_sol_reserves * amm.buy(
            token_amount,
        )->Ok_0.0.virtual_token_reserves >= amm.virtual_sol_reserves
            * amm.virtual_token_reserves,
{
    let vs = amm.virtual_sol_reserves as int;
    let vt = amm.virtual_token_reserves as int;
    let rem = amm.remaining(token_amount);
    let next = amm.buy(token_amount)->Ok_0.0;
    let quotient = (vs * vt) / rem;
    lemma_mul_sat_le(vs, vt);
    assert(mul_sat(vs, vt) == vs * vt);
    assert(vs * vt < (quotient + 1) * rem) by (nonlinear_arith)
        requires
            quotient == (vs * vt) / rem,
            rem > 0,
    ;
    lemma_div_antitone(vs * vt, rem, rem);
    let new_vs = next.virtual_sol_reserves as int;
    assert(new_vs >= vs);
    assert(new_vs >= quotient + 1 || new_vs == u64::MAX);
    if new_vs >= quotient + 1 {
        assert(new_vs * rem >= (quotient + 1) * rem) by (nonlinear_arith)
            requires
                new_vs >= quotient + 1,
                rem > 0,
        ;
    } else {
        assert(new_vs * rem >= vs * vt) by (nonlinear_arith)
            requires
                new_vs == u64::MAX,
                rem >= 1,
                vs * vt <= u64::MAX,
        ;
    }
}

} // verus!
