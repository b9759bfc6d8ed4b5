//! A beam on Marinade's liquidity pool: what its pool tokens stand for in
//! both legs of the pool, and the balance that it could hand over.

use vstd::prelude::*;
use crate::beam::{proportional, BeamCalculationError};
use crate::marinade::{calc_lamports_from_msol_amount, MarinadeState};
use crate::math::{
    checked_proportional_with_rounding, lemma_product_bounds, proportional_fits,
    proportional_spec, proportional_wide, proportional_with_rounding, RoundingMode,
};
use crate::pubkey::Pubkey;
use crate::state::{first_index, is_registered, State};

verus! {

/// The difference `a - b`, held at the least or the greatest amount of 128
/// bits with a sign where it would leave them.
pub open spec fn saturating_difference(a: i128, b: i128) -> i128 {
    if a - b > i128::MAX {
        i128::MAX
    } else if a - b < i128::MIN {
        i128::MIN
    } else {
        (a - b) as i128
    }
}

/// The difference `a - b`, held at the bounds of 128 bits with a sign.
pub fn saturating_sub_wide(a: i128, b: i128) -> (result: i128)
    ensures
        result == saturating_difference(a, b),
{
    match a.checked_sub(b) {
        Some(difference) => difference,
        None => if b > 0 {
            i128::MIN
        } else {
            i128::MAX
        },
    }
}

/// A balance in the liquidity pool: lamports and mSOL, the two legs, and
/// the pool tokens that stand for them.
#[derive(Clone, Copy, Debug, PartialEq, Eq, Structural)]
pub struct LiquidityPoolBalance {
    pub lamports: i128,
    pub msol: i128,
    pub liq_pool_token: i128,
}

impl LiquidityPoolBalance {
    /// Whether no part of the balance is negative.
    pub open spec fn nonnegative(&self) -> bool {
        0 <= self.lamports && 0 <= self.msol && 0 <= self.liq_pool_token
    }

    /// Whether the part `numerator / denominator` of this balance can be
    /// taken: nothing is negative and no product leaves 128 bits.
    pub open spec fn can_scale(&self, numerator: int, denominator: int) -> bool {
        &&& self.nonnegative()
        &&& 0 <= numerator
        &&& 0 <= denominator
        &&& self.lamports * numerator <= i128::MAX
        &&& self.msol * numerator <= i128::MAX
        &&& self.liq_pool_token * numerator <= i128::MAX
    }

    /// Whether the worth of both legs can be computed: Marinade's
    /// balances fit 64 bits, so does the worth of the mSOL, and the sum
    /// fits 128 bits with a sign.
    pub open spec fn sol_value_defined(&self, marinade_state: MarinadeState) -> bool {
        &&& marinade_state.under_control() <= u64::MAX
        &&& proportional_fits(
            (self.msol as u64) as int,
            marinade_state.virtual_staked(),
            marinade_state.msol_supply as int,
            RoundingMode::Down,
        )
        &&& self.lamports + proportional_spec(
            (self.msol as u64) as int,
            marinade_state.virtual_staked(),
            marinade_state.msol_supply as int,
            RoundingMode::Down,
        ) <= i128::MAX
    }

    /// Whether the part `numerator / denominator` of this balance can be
    /// taken.
    pub fn scales_by(&self, numerator: i128, denominator: i128) -> (result: bool)
        ensures
            result == self.can_scale(numerator as int, denominator as int),
    {
        if self.lamports < 0 || self.msol < 0 || self.liq_pool_token < 0 || numerator < 0
            || denominator < 0 {
            return false;
        }
        proof {
            lemma_nonnegative_product(self.lamports as int, numerator as int);
            lemma_nonnegative_product(self.msol as int, numerator as int);
            lemma_nonnegative_product(self.liq_pool_token as int, numerator as int);
        }
        self.lamports.checked_mul(numerator).is_some() && self.msol.checked_mul(
            numerator,
        ).is_some() && self.liq_pool_token.checked_mul(numerator).is_some()
    }

    /// The balance of the given legs and pool tokens.
    pub fn new(sol_leg: i128, msol_leg: i128, total_liq_pool_tokens: i128) -> (result: Self)
        ensures
            result == (LiquidityPoolBalance {
                lamports: sol_leg,
                msol: msol_leg,
                liq_pool_token: total_liq_pool_tokens,
            }),
    {
        LiquidityPoolBalance {
            lamports: sol_leg,
            msol: msol_leg,
            liq_pool_token: total_liq_pool_tokens,
        }
    }

    /// The part of this balance that `liq_pool_token` pool tokens stand
    /// for, each leg rounded down.
    pub fn value_of(&self, liq_pool_token: u64) -> (result: Self)
        requires
            self.can_scale(liq_pool_token as int, self.liq_pool_token as int),
        ensures
            result.lamports == proportional_spec(
                self.lamports as int,
                liq_pool_token as int,
                self.liq_pool_token as int,
                RoundingMode::Down,
            ),
            result.msol == proportional_spec(
                self.msol as int,
                liq_pool_token as int,
                self.liq_pool_token as int,
                RoundingMode::Down,
            ),
            result.liq_pool_token == liq_pool_token,
    {
        let lamports = proportional_wide(self.lamports, liq_pool_token as i128, self.liq_pool_token);
        let msol = proportional_wide(self.msol, liq_pool_token as i128, self.liq_pool_token);
        LiquidityPoolBalance { lamports, msol, liq_pool_token: liq_pool_token as i128 }
    }

    /// The worth of both legs in lamports, the mSOL at Marinade's price;
    /// the mSOL and the sum are cut to 64 bits.
    pub fn sol_value(&self, marinade_state: &MarinadeState) -> (result: u64)
        requires
            self.sol_value_defined(*marinade_state),
        ensures
            result == (self.lamports + proportional_spec(
                (self.msol as u64) as int,
                marinade_state.virtual_staked(),
                marinade_state.msol_supply as int,
                RoundingMode::Down,
            )) as u64,
    {
        let lamports = self.lamports;
        let msol = calc_lamports_from_msol_amount(
            marinade_state,
            #[verifier::truncate]
            (self.msol as u64),
        ).unwrap();
        let sum = lamports + msol as i128;
        #[verifier::truncate]
        (sum as u64)
    }

    /// This balance where it holds fewer lamports than `other_lamports`;
    /// else the part of it that holds `other_lamports`, the other leg and
    /// the pool tokens rounded down.
    pub fn min_lamports(&self, other_lamports: i128) -> (result: Self)
        requires
            self.lamports >= other_lamports ==> self.can_scale(
                other_lamports as int,
                self.lamports as int,
            ),
        ensures
            self.lamports < other_lamports ==> result == *self,
            self.lamports >= other_lamports ==> result == (LiquidityPoolBalance {
                lamports: other_lamports,
                msol: proportional_spec(
                    self.msol as int,
                    other_lamports as int,
                    self.lamports as int,
                    RoundingMode::Down,
                ) as i128,
                liq_pool_token: proportional_spec(
                    self.liq_pool_token as int,
                    other_lamports as int,
                    self.lamports as int,
                    RoundingMode::Down,
                ) as i128,
            }),
    {
        if self.lamports < other_lamports {
            return *self;
        }
        let other_liq_pool_token = proportional_wide(
            self.liq_pool_token,
            other_lamports,
            self.lamports,
        );
        let other_msol = proportional_wide(self.msol, other_lamports, self.lamports);
        LiquidityPoolBalance {
            lamports: other_lamports,
            msol: other_msol,
            liq_pool_token: other_liq_pool_token,
        }
    }

    /// The part of this balance that is left once `other_lamports` are
    /// taken from its lamports, the other leg and the pool tokens rounded
    /// down.
    pub fn checked_sub_lamports(&self, other_lamports: i128) -> (result: Self)
        requires
            self.can_sub_lamports(other_lamports),
        ensures
            result == (LiquidityPoolBalance {
                lamports: (self.lamports - other_lamports) as i128,
                msol: proportional_spec(
                    self.msol as int,
                    self.lamports - other_lamports,
                    self.lamports as int,
                    RoundingMode::Down,
                ) as i128,
                liq_pool_token: proportional_spec(
                    self.liq_pool_token as int,
                    self.lamports - other_lamports,
                    self.lamports as int,
                    RoundingMode::Down,
                ) as i128,
            }),
    {
        let new_lamports = self.lamports - other_lamports;
        let new_liq_pool_token = proportional_wide(self.liq_pool_token, new_lamports, self.lamports);
        let new_msol = proportional_wide(self.msol, new_lamports, self.lamports);
        LiquidityPoolBalance {
            lamports: new_lamports,
            msol: new_msol,
            liq_pool_token: new_liq_pool_token,
        }
    }

    /// As `value_of`, and refused with `CalculationFailure` where the part
    /// cannot be taken.
    pub fn try_value_of(&self, liq_pool_token: u64) -> (result: Result<
        Self,
        BeamCalculationError,
    >)
        ensures
            match result {
                Ok(part) => {
                    &&& self.can_scale(liq_pool_token as int, self.liq_pool_token as int)
                    &&& part.lamports == proportional_spec(
                        self.lamports as int,
                        liq_pool_token as int,
                        self.liq_pool_token as int,
                        RoundingMode::Down,
                    )
                    &&& part.msol == proportional_spec(
                        self.msol as int,
                        liq_pool_token as int,
                        self.liq_pool_token as int,
                        RoundingMode::Down,
                    )
                    &&& part.liq_pool_token == liq_pool_token
                },
                Err(e) => e == BeamCalculationError::CalculationFailure && !self.can_scale(
                    liq_pool_token as int,
                    self.liq_pool_token as int,
                ),
            },
    {
        if self.scales_by(liq_pool_token as i128, self.liq_pool_token) {
            Ok(self.value_of(liq_pool_token))
        } else {
            Err(BeamCalculationError::CalculationFailure)
        }
    }

    /// As `sol_value`, and refused with `CalculationFailure` where the
    /// worth cannot be computed.
    pub fn try_sol_value(&self, marinade_state: &MarinadeState) -> (result: Result<
        u64,
        BeamCalculationError,
    >)
        ensures
            match result {
                Ok(value) => self.sol_value_defined(*marinade_state) && value == (self.lamports
                    + proportional_spec(
                    (self.msol as u64) as int,
                    marinade_state.virtual_staked(),
                    marinade_state.msol_supply as int,
                    RoundingMode::Down,
                )) as u64,
                Err(e) => e == BeamCalculationError::CalculationFailure
                    && !self.sol_value_defined(*marinade_state),
            },
    {
        if !marinade_state.balances_fit() {
            return Err(BeamCalculationError::CalculationFailure);
        }
        let msol = match calc_lamports_from_msol_amount(
            marinade_state,
            #[verifier::truncate]
            (self.msol as u64),
        ) {
            Ok(value) => value,
            Err(e) => {
                return Err(e);
            },
        };
        if self.lamports.checked_add(msol as i128).is_none() {
            return Err(BeamCalculationError::CalculationFailure);
        }
        Ok(self.sol_value(marinade_state))
    }

    /// As `min_lamports`, and refused with `CalculationFailure` where the
    /// part cannot be taken.
    pub fn try_min_lamports(&self, other_lamports: i128) -> (result: Result<
        Self,
        BeamCalculationError,
    >)
        ensures
            self.lamports < other_lamports ==> result == Ok::<Self, BeamCalculationError>(*self),
            self.lamports >= other_lamports && !self.can_scale(
                other_lamports as int,
                self.lamports as int,
            ) ==> result == Err::<Self, BeamCalculationError>(
                BeamCalculationError::CalculationFailure,
            ),
            self.lamports >= other_lamports && self.can_scale(
                other_lamports as int,
                self.lamports as int,
            ) ==> result == Ok::<Self, BeamCalculationError>(
                LiquidityPoolBalance {
                    lamports: other_lamports,
                    msol: proportional_spec(
                        self.msol as int,
                        other_lamports as int,
                        self.lamports as int,
                        RoundingMode::Down,
                    ) as i128,
                    liq_pool_token: proportional_spec(
                        self.liq_pool_token as int,
                        other_lamports as int,
                        self.lamports as int,
                        RoundingMode::Down,
                    ) as i128,
                },
            ),
    {
        if self.lamports < other_lamports || self.scales_by(other_lamports, self.lamports) {
            Ok(self.min_lamports(other_lamports))
        } else {
            Err(BeamCalculationError::CalculationFailure)
        }
    }

    /// Whether `other_lamports` can be taken from the lamports of this
    /// balance, and the part that is left be computed.
    pub open spec fn can_sub_lamports(&self, other_lamports: i128) -> bool {
        &&& i128::MIN <= self.lamports - other_lamports <= i128::MAX
        &&& self.can_scale(self.lamports - other_lamports, self.lamports as int)
    }

    /// As `checked_sub_lamports`, and refused with `CalculationFailure`
    /// where the part that is left cannot be computed.
    pub fn try_sub_lamports(&self, other_lamports: i128) -> (result: Result<
        Self,
        BeamCalculationError,
    >)
        ensures
            !self.can_sub_lamports(other_lamports) ==> result == Err::<
                Self,
                BeamCalculationError,
            >(BeamCalculationError::CalculationFailure),
            self.can_sub_lamports(other_lamports) ==> result == Ok::<Self, BeamCalculationError>(
                LiquidityPoolBalance {
                    lamports: (self.lamports - other_lamports) as i128,
                    msol: proportional_spec(
                        self.msol as int,
                        self.lamports - other_lamports,
                        self.lamports as int,
                        RoundingMode::Down,
                    ) as i128,
                    liq_pool_token: proportional_spec(
                        self.liq_pool_token as int,
                        self.lamports - other_lamports,
                        self.lamports as int,
                        RoundingMode::Down,
                    ) as i128,
                },
            ),
    {
        match self.lamports.checked_sub(other_lamports) {
            Some(left) => {
                if self.scales_by(left, self.lamports) {
                    Ok(self.checked_sub_lamports(other_lamports))
                } else {
                    Err(BeamCalculationError::CalculationFailure)
                }
            },
            None => Err(BeamCalculationError::CalculationFailure),
        }
    }

    /// This balance less the other, part by part.
    pub fn sub(&self, other: Self) -> (result: Self)
        ensures
            result == (LiquidityPoolBalance {
                lamports: saturating_difference(self.lamports, other.lamports),
                msol: saturating_difference(self.msol, other.msol),
                liq_pool_token: saturating_difference(self.liq_pool_token, other.liq_pool_token),
            }),
    {
        LiquidityPoolBalance {
            lamports: saturating_sub_wide(self.lamports, other.lamports),
            msol: saturating_sub_wide(self.msol, other.msol),
            liq_pool_token: saturating_sub_wide(self.liq_pool_token, other.liq_pool_token),
        }
    }
}

/// What a beam reads of the liquidity pool.
#[derive(Clone, Copy, Debug, PartialEq, Eq, Structural)]
pub struct LiquidityPool {
    /// The lamports of the account that holds the SOL leg, its rent
    /// included.
    pub sol_leg_lamports: u64,
    /// The mSOL of the other leg.
    pub msol_leg_amount: u64,
    /// The pool tokens in existence.
    pub liq_pool_mint_supply: u64,
}

impl LiquidityPool {
    /// The lamports of the SOL leg, the rent not counted.
    pub open spec fn sol_leg(&self, marinade_state: MarinadeState) -> int {
        self.sol_leg_lamports - marinade_state.rent_exempt_for_token_acc
    }

    /// The whole pool as a balance.
    pub open spec fn total(&self, marinade_state: MarinadeState) -> LiquidityPoolBalance {
        LiquidityPoolBalance {
            lamports: self.sol_leg(marinade_state) as i128,
            msol: self.msol_leg_amount as i128,
            liq_pool_token: self.liq_pool_mint_supply as i128,
        }
    }

    /// The part of the pool that `tokens` pool tokens stand for.
    pub open spec fn balance_for(&self, marinade_state: MarinadeState, tokens: u64)
        -> LiquidityPoolBalance {
        LiquidityPoolBalance {
            lamports: proportional_spec(
                self.sol_leg(marinade_state),
                tokens as int,
                self.liq_pool_mint_supply as int,
                RoundingMode::Down,
            ) as i128,
            msol: proportional_spec(
                self.msol_leg_amount as int,
                tokens as int,
                self.liq_pool_mint_supply as int,
                RoundingMode::Down,
            ) as i128,
            liq_pool_token: tokens as i128,
        }
    }

    /// Whether the SOL leg holds its rent at least.
    pub open spec fn holds_rent(&self, marinade_state: MarinadeState) -> bool {
        self.sol_leg_lamports >= marinade_state.rent_exempt_for_token_acc
    }

    /// Whether the part of the pool that `tokens` pool tokens stand for can
    /// be taken: the SOL leg holds its rent, and no product leaves 128 bits
    /// with a sign.
    pub open spec fn can_stand_for(&self, marinade_state: MarinadeState, tokens: int) -> bool {
        &&& self.holds_rent(marinade_state)
        &&& self.sol_leg(marinade_state) * tokens <= i128::MAX
        &&& self.msol_leg_amount * tokens <= i128::MAX
        &&& self.liq_pool_mint_supply * tokens <= i128::MAX
    }
}

/// The product of two amounts that are not negative is not negative.
proof fn lemma_nonnegative_product(a: int, b: int)
    requires
        0 <= a,
        0 <= b,
    ensures
        0 <= a * b,
{
    assert(0 <= a * b) by (nonlinear_arith)
        requires
            0 <= a,
            0 <= b,
    ;
}

/// Whether the SOL leg holds its rent at least.
pub fn has_rent(marinade_state: &MarinadeState, pool: &LiquidityPool) -> (result: bool)
    ensures
        result == pool.holds_rent(*marinade_state),
{
    pool.sol_leg_lamports >= marinade_state.rent_exempt_for_token_acc
}

/// Whether the part of the pool that `tokens` pool tokens stand for can be
/// taken.
pub fn stands_for(marinade_state: &MarinadeState, pool: &LiquidityPool, tokens: u64) -> (result:
    bool)
    ensures
        result == pool.can_stand_for(*marinade_state, tokens as int),
{
    if !has_rent(marinade_state, pool) {
        return false;
    }
    let sol_leg: u64 = pool.sol_leg_lamports - marinade_state.rent_exempt_for_token_acc;
    proof {
        lemma_product_bounds(sol_leg, tokens, 0);
        lemma_product_bounds(pool.msol_leg_amount, tokens, 0);
        lemma_product_bounds(pool.liq_pool_mint_supply, tokens, 0);
    }
    let limit: u128 = 0x7fff_ffff_ffff_ffff_ffff_ffff_ffff_ffff;
    (sol_leg as u128) * (tokens as u128) <= limit && (pool.msol_leg_amount as u128) * (
    tokens as u128) <= limit && (pool.liq_pool_mint_supply as u128) * (tokens as u128) <= limit
}

/// The whole pool as a balance.
pub fn total_liq_pool(marinade_state: &MarinadeState, pool: &LiquidityPool) -> (result:
    LiquidityPoolBalance)
    requires
        pool.holds_rent(*marinade_state),
    ensures
        result == pool.total(*marinade_state),
{
    let sol_leg_lamports = pool.sol_leg_lamports - marinade_state.rent_exempt_for_token_acc;
    LiquidityPoolBalance::new(
        sol_leg_lamports as i128,
        pool.msol_leg_amount as i128,
        pool.liq_pool_mint_supply as i128,
    )
}

/// The part of the pool that `tokens` pool tokens stand for.
pub fn liq_pool_balance_for_tokens(
    tokens: u64,
    marinade_state: &MarinadeState,
    pool: &LiquidityPool,
) -> (result: LiquidityPoolBalance)
    requires
        pool.can_stand_for(*marinade_state, tokens as int),
    ensures
        result == pool.balance_for(*marinade_state, tokens),
{
    let total_balance = total_liq_pool(marinade_state, pool);
    total_balance.value_of(tokens)
}

/// The part of the pool that the beam's pool tokens stand for.
pub fn current_liq_pool_balance(
    marinade_state: &MarinadeState,
    pool: &LiquidityPool,
    liq_pool_token_balance: u64,
) -> (result: LiquidityPoolBalance)
    requires
        pool.can_stand_for(*marinade_state, liq_pool_token_balance as int),
    ensures
        result == pool.balance_for(*marinade_state, liq_pool_token_balance),
{
    liq_pool_balance_for_tokens(liq_pool_token_balance, marinade_state, pool)
}

/// The pool tokens that `lamports` are worth, where the SOL leg alone is
/// counted, rounded down.
pub fn liq_pool_tokens_from_lamports(
    marinade_state: &MarinadeState,
    pool: &LiquidityPool,
    lamports: u64,
) -> (result: Result<u64, BeamCalculationError>)
    requires
        pool.holds_rent(*marinade_state),
    ensures
        match result {
            Ok(tokens) => tokens == proportional_spec(
                pool.liq_pool_mint_supply as int,
                lamports as int,
                pool.sol_leg(*marinade_state),
                RoundingMode::Down,
            ),
            Err(e) => e == BeamCalculationError::CalculationFailure && !proportional_fits(
                pool.liq_pool_mint_supply as int,
                lamports as int,
                pool.sol_leg(*marinade_state),
                RoundingMode::Down,
            ),
        },
{
    let liq_pool_lamports = pool.sol_leg_lamports - marinade_state.rent_exempt_for_token_acc;
    proportional(pool.liq_pool_mint_supply, lamports, liq_pool_lamports)
}

/// The worth of the whole pool in lamports: the SOL leg, and the mSOL leg
/// at Marinade's price; `None` where that does not fit 64 bits.
pub open spec fn pool_value(marinade_state: MarinadeState, pool: LiquidityPool) -> Option<int> {
    if !proportional_fits(
        pool.msol_leg_amount as int,
        marinade_state.virtual_staked(),
        marinade_state.msol_supply as int,
        RoundingMode::Down,
    ) {
        None
    } else {
        let value = pool.sol_leg(marinade_state) + proportional_spec(
            pool.msol_leg_amount as int,
            marinade_state.virtual_staked(),
            marinade_state.msol_supply as int,
            RoundingMode::Down,
        );
        if value <= u64::MAX {
            Some(value)
        } else {
            None
        }
    }
}

/// The pool tokens that `lamports` are worth, where both legs are
/// counted, rounded down; `None` where the worth of the pool or the pool
/// tokens do not fit 64 bits.
pub open spec fn tokens_worth(marinade_state: MarinadeState, pool: LiquidityPool, lamports: u64)
    -> Option<int> {
    match pool_value(marinade_state, pool) {
        None => None,
        Some(value) => if proportional_fits(
            pool.liq_pool_mint_supply as int,
            lamports as int,
            value,
            RoundingMode::Down,
        ) {
            Some(
                proportional_spec(
                    pool.liq_pool_mint_supply as int,
                    lamports as int,
                    value,
                    RoundingMode::Down,
                ),
            )
        } else {
            None
        },
    }
}

/// The pool tokens that `lamports` are worth, where both legs of the pool
/// are counted.
pub fn calculate_liq_pool_token_value_of_lamports(
    marinade_state: &MarinadeState,
    pool: &LiquidityPool,
    lamports: u64,
) -> (result: Result<u64, BeamCalculationError>)
    requires
        pool.holds_rent(*marinade_state),
        marinade_state.under_control() <= u64::MAX,
    ensures
        match tokens_worth(*marinade_state, *pool, lamports) {
            Some(tokens) => result == Ok::<u64, BeamCalculationError>(tokens as u64) && 0
                <= tokens <= u64::MAX,
            None => result == Err::<u64, BeamCalculationError>(
                BeamCalculationError::CalculationFailure,
            ),
        },
{
    let total_lamports = pool.sol_leg_lamports - marinade_state.rent_exempt_for_token_acc;
    let lamports_value_of_msol = match calc_lamports_from_msol_amount(
        marinade_state,
        pool.msol_leg_amount,
    ) {
        Ok(value) => value,
        Err(e) => {
            return Err(e);
        },
    };
    let total_value_of_pool = match total_lamports.checked_add(lamports_value_of_msol) {
        Some(value) => value,
        None => {
            return Err(BeamCalculationError::CalculationFailure);
        },
    };
    proportional(pool.liq_pool_mint_supply, lamports, total_value_of_pool)
}

/// Whether the part of the pool that must be given up to withdraw
/// `lamports` can be computed: the SOL leg holds its rent, the pool tokens
/// fit 64 bits, and the part that they stand for can be taken.
pub open spec fn withdrawal_defined(
    marinade_state: MarinadeState,
    pool: LiquidityPool,
    lamports: u64,
) -> bool {
    &&& pool.holds_rent(marinade_state)
    &&& proportional_fits(
        pool.liq_pool_mint_supply as int,
        lamports as int,
        pool.sol_leg(marinade_state),
        RoundingMode::Up,
    )
    &&& pool.can_stand_for(
        marinade_state,
        proportional_spec(
            pool.liq_pool_mint_supply as int,
            lamports as int,
            pool.sol_leg(marinade_state),
            RoundingMode::Up,
        ),
    )
}

/// The part of the pool that must be given up to withdraw `lamports` from
/// the SOL leg: the pool tokens are rounded up, so that they suffice.
pub fn calculate_liq_pool_balance_required_to_withdraw_lamports(
    marinade_state: &MarinadeState,
    pool: &LiquidityPool,
    lamports: u64,
) -> (result: LiquidityPoolBalance)
    requires
        withdrawal_defined(*marinade_state, *pool, lamports),
    ensures
        result == pool.balance_for(
            *marinade_state,
            proportional_spec(
                pool.liq_pool_mint_supply as int,
                lamports as int,
                pool.sol_leg(*marinade_state),
                RoundingMode::Up,
            ) as u64,
        ),
{
    let liq_pool_lamports = pool.sol_leg_lamports - marinade_state.rent_exempt_for_token_acc;
    let liq_pool_tokens = proportional_with_rounding(
        pool.liq_pool_mint_supply,
        lamports,
        liq_pool_lamports,
        RoundingMode::Up,
    );
    liq_pool_balance_for_tokens(liq_pool_tokens, marinade_state, pool)
}

/// The balance that a beam on the liquidity pool could hand over: what its
/// pool tokens stand for, less what the pool tokens stand for that are
/// worth what the beam answers for.
pub open spec fn liquidity_pool_yield(
    state: State,
    beam: Pubkey,
    marinade_state: MarinadeState,
    pool: LiquidityPool,
    liq_pool_token_balance: u64,
) -> Result<LiquidityPoolBalance, BeamCalculationError> {
    if !is_registered(state.allocations@, beam) {
        Err(BeamCalculationError::UnidentifiedBeam)
    } else {
        match tokens_worth(
            marinade_state,
            pool,
            state.allocations@[first_index(state.allocations@, beam)].partial_gsol_supply,
        ) {
            None => Err(BeamCalculationError::CalculationFailure),
            Some(tokens) => {
                let staked = pool.balance_for(marinade_state, liq_pool_token_balance);
                let required = pool.balance_for(marinade_state, tokens as u64);
                Ok(
                    LiquidityPoolBalance {
                        lamports: saturating_difference(staked.lamports, required.lamports),
                        msol: saturating_difference(staked.msol, required.msol),
                        liq_pool_token: saturating_difference(
                            staked.liq_pool_token,
                            required.liq_pool_token,
                        ),
                    },
                )
            },
        }
    }
}

/// Whether the balance that a beam could hand over can be computed:
/// Marinade's balances fit 64 bits, and the parts of the pool that the
/// beam's pool tokens and the pool tokens worth its stake stand for can be
/// taken.
pub open spec fn yield_defined(
    state: State,
    beam: Pubkey,
    marinade_state: MarinadeState,
    pool: LiquidityPool,
    liq_pool_token_balance: u64,
) -> bool {
    &&& marinade_state.under_control() <= u64::MAX
    &&& pool.can_stand_for(marinade_state, liq_pool_token_balance as int)
    &&& is_registered(state.allocations@, beam) ==> match tokens_worth(
        marinade_state,
        pool,
        state.allocations@[first_index(state.allocations@, beam)].partial_gsol_supply,
    ) {
        Some(tokens) => pool.can_stand_for(marinade_state, tokens),
        None => true,
    }
}

/// The balance that the beam `beam` could hand over, while it holds
/// `liq_pool_token_balance` pool tokens.
pub fn calculate_extractable_yield(
    sunrise_state: &State,
    beam: &Pubkey,
    marinade_state: &MarinadeState,
    pool: &LiquidityPool,
    liq_pool_token_balance: u64,
) -> (result: Result<LiquidityPoolBalance, BeamCalculationError>)
    requires
        yield_defined(*sunrise_state, *beam, *marinade_state, *pool, liq_pool_token_balance),
    ensures
        result == liquidity_pool_yield(
            *sunrise_state,
            *beam,
            *marinade_state,
            *pool,
            liq_pool_token_balance,
        ),
{
    let staked_balance = current_liq_pool_balance(marinade_state, pool, liq_pool_token_balance);
    let staked_sol = match sunrise_state.get_beam_details(beam) {
        Some(details) => details.partial_gsol_supply,
        None => {
            return Err(BeamCalculationError::UnidentifiedBeam);
        },
    };
    let required_lp_tokens_to_cover_staked_sol = match calculate_liq_pool_token_value_of_lamports(
        marinade_state,
        pool,
        staked_sol,
    ) {
        Ok(tokens) => tokens,
        Err(e) => {
            return Err(e);
        },
    };
    let required_liq_pool_balance = liq_pool_balance_for_tokens(
        required_lp_tokens_to_cover_staked_sol,
        marinade_state,
        pool,
    );
    Ok(staked_balance.sub(required_liq_pool_balance))
}

/// As `total_liq_pool`, and refused with `CalculationFailure` where the
/// SOL leg does not hold its rent.
pub fn try_total_liq_pool(marinade_state: &MarinadeState, pool: &LiquidityPool) -> (result:
    Result<LiquidityPoolBalance, BeamCalculationError>)
    ensures
        pool.holds_rent(*marinade_state) ==> result == Ok::<
            LiquidityPoolBalance,
            BeamCalculationError,
        >(pool.total(*marinade_state)),
        !pool.holds_rent(*marinade_state) ==> result == Err::<
            LiquidityPoolBalance,
            BeamCalculationError,
        >(BeamCalculationError::CalculationFailure),
{
    if has_rent(marinade_state, pool) {
        Ok(total_liq_pool(marinade_state, pool))
    } else {
        Err(BeamCalculationError::CalculationFailure)
    }
}

/// As `liq_pool_balance_for_tokens`, and refused with `CalculationFailure`
/// where the part cannot be taken.
pub fn try_liq_pool_balance_for_tokens(
    tokens: u64,
    marinade_state: &MarinadeState,
    pool: &LiquidityPool,
) -> (result: Result<LiquidityPoolBalance, BeamCalculationError>)
    ensures
        pool.can_stand_for(*marinade_state, tokens as int) ==> result == Ok::<
            LiquidityPoolBalance,
            BeamCalculationError,
        >(pool.balance_for(*marinade_state, tokens)),
        !pool.can_stand_for(*marinade_state, tokens as int) ==> result == Err::<
            LiquidityPoolBalance,
            BeamCalculationError,
        >(BeamCalculationError::CalculationFailure),
{
    if stands_for(marinade_state, pool, tokens) {
        Ok(liq_pool_balance_for_tokens(tokens, marinade_state, pool))
    } else {
        Err(BeamCalculationError::CalculationFailure)
    }
}

/// As `current_liq_pool_balance`, and refused with `CalculationFailure`
/// where the part cannot be taken.
pub fn try_current_liq_pool_balance(
    marinade_state: &MarinadeState,
    pool: &LiquidityPool,
    liq_pool_token_balance: u64,
) -> (result: Result<LiquidityPoolBalance, BeamCalculationError>)
    ensures
        pool.can_stand_for(*marinade_state, liq_pool_token_balance as int) ==> result == Ok::<
            LiquidityPoolBalance,
            BeamCalculationError,
        >(pool.balance_for(*marinade_state, liq_pool_token_balance)),
        !pool.can_stand_for(*marinade_state, liq_pool_token_balance as int) ==> result == Err::<
            LiquidityPoolBalance,
            BeamCalculationError,
        >(BeamCalculationError::CalculationFailure),
{
    try_liq_pool_balance_for_tokens(liq_pool_token_balance, marinade_state, pool)
}

/// As `liq_pool_tokens_from_lamports`, and refused with
/// `CalculationFailure` also where the SOL leg does not hold its rent.
pub fn try_liq_pool_tokens_from_lamports(
    marinade_state: &MarinadeState,
    pool: &LiquidityPool,
    lamports: u64,
) -> (result: Result<u64, BeamCalculationError>)
    ensures
        match result {
            Ok(tokens) => pool.holds_rent(*marinade_state) && tokens == proportional_spec(
                pool.liq_pool_mint_supply as int,
                lamports as int,
                pool.sol_leg(*marinade_state),
                RoundingMode::Down,
            ),
            Err(e) => e == BeamCalculationError::CalculationFailure && !(pool.holds_rent(
                *marinade_state,
            ) && proportional_fits(
                pool.liq_pool_mint_supply as int,
                lamports as int,
                pool.sol_leg(*marinade_state),
                RoundingMode::Down,
            )),
        },
{
    if has_rent(marinade_state, pool) {
        liq_pool_tokens_from_lamports(marinade_state, pool, lamports)
    } else {
        Err(BeamCalculationError::CalculationFailure)
    }
}

/// As `calculate_liq_pool_token_value_of_lamports`, and refused with
/// `CalculationFailure` also where the SOL leg does not hold its rent or
/// Marinade's balances do not fit 64 bits.
pub fn try_calculate_liq_pool_token_value_of_lamports(
    marinade_state: &MarinadeState,
    pool: &LiquidityPool,
    lamports: u64,
) -> (result: Result<u64, BeamCalculationError>)
    ensures
        match result {
            Ok(tokens) => {
                &&& pool.holds_rent(*marinade_state)
                &&& marinade_state.under_control() <= u64::MAX
                &&& tokens_worth(*marinade_state, *pool, lamports) == Some(tokens as int)
            },
            Err(e) => e == BeamCalculationError::CalculationFailure && !(pool.holds_rent(
                *marinade_state,
            ) && marinade_state.under_control() <= u64::MAX && tokens_worth(
                *marinade_state,
                *pool,
                lamports,
            ).is_some()),
        },
{
    if has_rent(marinade_state, pool) && marinade_state.balances_fit() {
        calculate_liq_pool_token_value_of_lamports(marinade_state, pool, lamports)
    } else {
        Err(BeamCalculationError::CalculationFailure)
    }
}

/// As `calculate_liq_pool_balance_required_to_withdraw_lamports`, and
/// refused with `CalculationFailure` where the part cannot be computed.
pub fn try_calculate_liq_pool_balance_required_to_withdraw_lamports(
    marinade_state: &MarinadeState,
    pool: &LiquidityPool,
    lamports: u64,
) -> (result: Result<LiquidityPoolBalance, BeamCalculationError>)
    ensures
        withdrawal_defined(*marinade_state, *pool, lamports) ==> result == Ok::<
            LiquidityPoolBalance,
            BeamCalculationError,
        >(
            pool.balance_for(
                *marinade_state,
                proportional_spec(
                    pool.liq_pool_mint_supply as int,
                    lamports as int,
                    pool.sol_leg(*marinade_state),
                    RoundingMode::Up,
                ) as u64,
            ),
        ),
        !withdrawal_defined(*marinade_state, *pool, lamports) ==> result == Err::<
            LiquidityPoolBalance,
            BeamCalculationError,
        >(BeamCalculationError::CalculationFailure),
{
    if !has_rent(marinade_state, pool) {
        return Err(BeamCalculationError::CalculationFailure);
    }
    let liq_pool_lamports: u64 = pool.sol_leg_lamports - marinade_state.rent_exempt_for_token_acc;
    let tokens = match checked_proportional_with_rounding(
        pool.liq_pool_mint_supply,
        lamports,
        liq_pool_lamports,
        RoundingMode::Up,
    ) {
        Some(tokens) => tokens,
        None => {
            return Err(BeamCalculationError::CalculationFailure);
        },
    };
    if !stands_for(marinade_state, pool, tokens) {
        return Err(BeamCalculationError::CalculationFailure);
    }
    Ok(calculate_liq_pool_balance_required_to_withdraw_lamports(marinade_state, pool, lamports))
}

/// As `calculate_extractable_yield`, and refused with `CalculationFailure`
/// also where the balance cannot be computed.
pub fn try_calculate_extractable_yield(
    sunrise_state: &State,
    beam: &Pubkey,
    marinade_state: &MarinadeState,
    pool: &LiquidityPool,
    liq_pool_token_balance: u64,
) -> (result: Result<LiquidityPoolBalance, BeamCalculationError>)
    ensures
        yield_defined(*sunrise_state, *beam, *marinade_state, *pool, liq_pool_token_balance)
            ==> result == liquidity_pool_yield(
            *sunrise_state,
            *beam,
            *marinade_state,
            *pool,
            liq_pool_token_balance,
        ),
        !yield_defined(*sunrise_state, *beam, *marinade_state, *pool, liq_pool_token_balance)
            ==> result == Err::<LiquidityPoolBalance, BeamCalculationError>(
            BeamCalculationError::CalculationFailure,
        ),
{
    if !marinade_state.balances_fit() || !stands_for(marinade_state, pool, liq_pool_token_balance) {
        return Err(BeamCalculationError::CalculationFailure);
    }
    match sunrise_state.get_beam_details(beam) {
        Some(details) => {
            match calculate_liq_pool_token_value_of_lamports(
                marinade_state,
                pool,
                details.partial_gsol_supply,
            ) {
                Ok(tokens) => {
                    if !stands_for(marinade_state, pool, tokens) {
                        return Err(BeamCalculationError::CalculationFailure);
                    }
                },
                Err(_) => {},
            }
        },
        None => {},
    }
    calculate_extractable_yield(sunrise_state, beam, marinade_state, pool, liq_pool_token_balance)
}

} // verus!
