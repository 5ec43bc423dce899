//! The bonding-curve reserve record and its swap arithmetic.
//!
//! A record tracks virtual reserves (the accounting quantities the
//! constant-product price is computed from) and real reserves (the portion
//! backed by custodial balances). Buys and sells are quoted on a common
//! 9-decimal basis with 128-bit intermediates, applied all-or-nothing, and
//! checked against the custody balances after every trade.

use vstd::prelude::*;
use vstd::arithmetic::div_mod::{
    lemma_div_is_ordered, lemma_div_multiples_vanish, lemma_div_nonincreasing,
    lemma_multiply_divide_le,
};
use vstd::arithmetic::mul::lemma_mul_inequality;
use vstd::bytes::{spec_u64_from_le_bytes, spec_u64_to_le_bytes};
use crate::codec::{push_pubkey, push_u64_le, push_zeros, read_pubkey, read_u64_le, spec_zeros};
use crate::errors::{ArithmeticError, InvariantError};
use crate::helpers::{bps_mul, Pubkey};

verus! {

/// Scale of the 9-decimal common basis quotes are computed in.
pub const SOLANA_DECIMALS: u64 = 1_000_000_000;

/// Virtual base reserves projected for the terminal buy: the total raise
/// target the curve ends at.
pub const TERMINAL_VIRTUAL_SOL_RESERVES: u64 = 115_005_359_056;

/// One bonding-curve reserve record, one per issued token.
#[derive(Clone, Copy, Debug)]
pub struct BondingCurve {
    /// 1 once the curve has sold out; trades are then rejected forever.
    pub complete: u8,
    /// Bump byte of the record's derived address.
    pub bump: u8,
    /// The token mint this curve trades.
    pub mint: Pubkey,
    /// The identity that created the curve.
    pub creator: Pubkey,
    /// Real token reserves the curve was seeded with.
    pub initial_real_token_reserves: u64,
    /// Virtual base-currency reserves (pricing quantity).
    pub virtual_sol_reserves: u64,
    /// Virtual token reserves (pricing quantity).
    pub virtual_token_reserves: u64,
    /// Base currency actually held for the curve.
    pub real_sol_reserves: u64,
    /// Tokens still available for sale from custody.
    pub real_token_reserves: u64,
    /// Total supply minted for this curve's token.
    pub token_total_supply: u64,
    /// Ledger clock value at which trading opens.
    pub starting_slot: u64,
}

/// Amounts actually moved by an accepted buy.
#[derive(Clone, Copy, Debug, PartialEq, Eq, Structural)]
pub struct BuyResult {
    /// Tokens leaving curve custody toward the buyer.
    pub token_amount: u64,
    /// Base currency paid into the curve, net of fee.
    pub sol_amount: u64,
}

/// Amounts actually moved by an accepted sell.
#[derive(Clone, Copy, Debug, PartialEq, Eq, Structural)]
pub struct SellResult {
    /// Tokens returned into curve custody by the seller.
    pub token_amount: u64,
    /// Base currency paid out of the curve.
    pub sol_amount: u64,
}

/// `10^n`.
pub open spec fn pow10(n: nat) -> nat
    decreases n,
{
    if n == 0 {
        1
    } else {
        10 * pow10((n - 1) as nat)
    }
}

/// `10^d` for the decimal ranges a mint can use.
pub fn pow10_u64(d: u8) -> (r: u64)
    requires
        d <= 9,
    ensures
        r == pow10(d as nat),
        1 <= r <= 1_000_000_000,
{
    proof {
        reveal_with_fuel(pow10, 11);
    }
    match d {
        0 => 1,
        1 => 10,
        2 => 100,
        3 => 1_000,
        4 => 10_000,
        5 => 100_000,
        6 => 1_000_000,
        7 => 10_000_000,
        8 => 100_000_000,
        _ => 1_000_000_000,
    }
}

/// A token quantity rescaled from the mint's own basis to the 9-decimal
/// common basis, rounding down.
pub open spec fn spec_scaled_tokens(amount: u64, decimals: u8) -> int {
    (amount * SOLANA_DECIMALS) / pow10(decimals as nat) as int
}

/// The base currency a sell of `token_amount` pays out of a curve with the
/// given virtual reserves: the constant-product quote on the common basis.
/// `None` when the virtual reserves are empty or the product overflows the
/// 128-bit intermediate.
pub open spec fn spec_sell_quote(
    virtual_sol: u64,
    virtual_tokens: u64,
    token_amount: u64,
    decimals: u8,
) -> Option<u64> {
    let ct = spec_scaled_tokens(virtual_tokens, decimals);
    let ad = spec_scaled_tokens(token_amount, decimals);
    let nt = ct + ad;
    if nt == 0 {
        None
    } else if virtual_sol * ct > u128::MAX {
        None
    } else {
        Some((virtual_sol - (virtual_sol * ct) / nt) as u64)
    }
}

/// The tokens (in the mint's own basis) a buy paying `sol_amount` receives:
/// the constant-product quote on the common basis, rescaled back down.
/// `None` when both base quantities are zero or the product overflows the
/// 128-bit intermediate.
pub open spec fn spec_buy_quote(
    virtual_sol: u64,
    virtual_tokens: u64,
    sol_amount: u64,
    decimals: u8,
) -> Option<u64> {
    let ct = spec_scaled_tokens(virtual_tokens, decimals);
    let ns = virtual_sol + sol_amount;
    if virtual_sol * ct > u128::MAX {
        None
    } else if ns == 0 {
        None
    } else {
        let nt = (virtual_sol * ct) / ns;
        Some((((ct - nt) * pow10(decimals as nat)) / SOLANA_DECIMALS as int) as u64)
    }
}

impl BondingCurve {
    /// Stored size of the record in bytes.
    pub const CURVE_SIZE: usize = 128;

    /// Quotes the base currency paid out for selling `token_amount` tokens
    /// against the current virtual reserves. Pure: the record is not touched.
    pub fn get_sol_for_sell_tokens(&self, token_amount: u64, decimals: u8) -> (r: Option<u64>)
        requires
            decimals <= 9,
        ensures
            r == spec_sell_quote(
                self.virtual_sol_reserves,
                self.virtual_token_reserves,
                token_amount,
                decimals,
            ),
            r matches Some(sol) ==> sol <= self.virtual_sol_reserves,
    {
        let mint_decimals = pow10_u64(decimals) as u128;
        let current_sol = self.virtual_sol_reserves as u128;

        proof {
            assert(self.virtual_token_reserves as int * SOLANA_DECIMALS as int <= u128::MAX)
                by (nonlinear_arith)
                requires
                    self.virtual_token_reserves <= u64::MAX,
            ;
            assert(token_amount as int * SOLANA_DECIMALS as int <= u128::MAX) by (nonlinear_arith)
                requires
                    token_amount <= u64::MAX,
            ;
        }
        let current_tokens = (self.virtual_token_reserves as u128) * (SOLANA_DECIMALS as u128)
            / mint_decimals;
        let added_tokens = (token_amount as u128) * (SOLANA_DECIMALS as u128) / mint_decimals;

        proof {
            lemma_div_nonincreasing(
                self.virtual_token_reserves as int * SOLANA_DECIMALS as int,
                mint_decimals as int,
            );
            lemma_div_nonincreasing(
                token_amount as int * SOLANA_DECIMALS as int,
                mint_decimals as int,
            );
        }
        let new_tokens = current_tokens + added_tokens;

        let k = current_sol.checked_mul(current_tokens)?;
        let new_sol = k.checked_div(new_tokens)?;

        proof {
            lemma_mul_inequality(
                current_tokens as int,
                new_tokens as int,
                current_sol as int,
            );
            vstd::arithmetic::mul::lemma_mul_is_commutative(
                current_tokens as int,
                current_sol as int,
            );
            vstd::arithmetic::mul::lemma_mul_is_commutative(
                new_tokens as int,
                current_sol as int,
            );
            lemma_div_is_ordered(
                current_sol as int * current_tokens as int,
                current_sol as int * new_tokens as int,
                new_tokens as int,
            );
            lemma_div_multiples_vanish(current_sol as int, new_tokens as int);
        }
        let sol_out = current_sol - new_sol;

        if sol_out <= u64::MAX as u128 {
            Some(sol_out as u64)
        } else {
            None
        }
    }

    /// Quotes the tokens received for paying `sol_amount` of base currency
    /// against the current virtual reserves. Pure: the record is not touched.
    pub fn get_tokens_for_buy_sol(&self, sol_amount: u64, decimals: u8) -> (r: Option<u64>)
        requires
            decimals <= 9,
        ensures
            r == spec_buy_quote(
                self.virtual_sol_reserves,
                self.virtual_token_reserves,
                sol_amount,
                decimals,
            ),
            r matches Some(tokens) ==> tokens <= self.virtual_token_reserves,
    {
        let mint_decimals = pow10_u64(decimals) as u128;
        let current_sol = self.virtual_sol_reserves as u128;

        proof {
            assert(self.virtual_token_reserves as int * SOLANA_DECIMALS as int <= u128::MAX)
                by (nonlinear_arith)
                requires
                    self.virtual_token_reserves <= u64::MAX,
            ;
        }
        let current_tokens = (self.virtual_token_reserves as u128) * (SOLANA_DECIMALS as u128)
            / mint_decimals;

        let new_sol = current_sol + (sol_amount as u128);
        let k_value_before = current_sol.checked_mul(current_tokens)?;
        let new_tokens = k_value_before.checked_div(new_sol)?;

        proof {
            assert(new_sol as int * current_tokens as int >= current_sol as int
                * current_tokens as int) by (nonlinear_arith)
                requires
                    new_sol >= current_sol,
                    current_tokens >= 0,
            ;
            lemma_multiply_divide_le(
                current_sol as int * current_tokens as int,
                new_sol as int,
                current_tokens as int,
            );
        }
        let tokens_out_scaled = current_tokens - new_tokens;

        proof {
            // tokens_out_scaled * 10^d <= current_tokens * 10^d <= vtr * 10^9
            lemma_mul_inequality(
                tokens_out_scaled as int,
                current_tokens as int,
                mint_decimals as int,
            );
            vstd::arithmetic::mul::lemma_mul_is_commutative(
                tokens_out_scaled as int,
                mint_decimals as int,
            );
            vstd::arithmetic::mul::lemma_mul_is_commutative(
                current_tokens as int,
                mint_decimals as int,
            );
            lemma_multiply_divide_le(
                self.virtual_token_reserves as int * SOLANA_DECIMALS as int,
                mint_decimals as int,
                u128::MAX as int,
            );
            assert(mint_decimals as int * u128::MAX as int >= self.virtual_token_reserves as int
                * SOLANA_DECIMALS as int) by (nonlinear_arith)
                requires
                    mint_decimals >= 1,
                    self.virtual_token_reserves as int * SOLANA_DECIMALS as int <= u128::MAX,
            ;
            // current_tokens * mint_decimals <= vtr * 10^9
            assert(current_tokens as int * mint_decimals as int <= self.virtual_token_reserves
                as int * SOLANA_DECIMALS as int) by {
                vstd::arithmetic::div_mod::lemma_fundamental_div_mod(
                    self.virtual_token_reserves as int * SOLANA_DECIMALS as int,
                    mint_decimals as int,
                );
                vstd::arithmetic::div_mod::lemma_mod_bound(
                    self.virtual_token_reserves as int * SOLANA_DECIMALS as int,
                    mint_decimals as int,
                );
            };
        }
        let tokens_out = tokens_out_scaled * mint_decimals / (SOLANA_DECIMALS as u128);

        proof {
            // tokens_out <= vtr because tokens_out * 10^9 bounds back
            lemma_multiply_divide_le(
                tokens_out_scaled as int * mint_decimals as int,
                SOLANA_DECIMALS as int,
                self.virtual_token_reserves as int,
            );
        }
        if tokens_out <= u64::MAX as u128 {
            Some(tokens_out as u64)
        } else {
            None
        }
    }
}

/// The fee rate in basis points after `elapsed` slots of trading: 99% for
/// the first 150 slots, then a linear ramp down, then 1% from slot 250 on.
pub open spec fn spec_fee_rate_bps(elapsed: u64) -> int {
    if elapsed < 150 {
        9900
    } else if elapsed < 250 {
        (2_162_600_000 - 8_300_000 * elapsed as int) / 100_000
    } else {
        100
    }
}

/// The fee charged on `amount` after `elapsed` slots, rounding down.
pub open spec fn spec_fee(elapsed: u64, amount: u64) -> int {
    (amount as int * spec_fee_rate_bps(elapsed)) / 10_000
}

/// A fee computed at a rate of at most 100% never exceeds the amount it is
/// charged on.
pub proof fn lemma_fee_bounded(amount: u64, rate: int)
    requires
        0 <= rate <= 10_000,
    ensures
        0 <= (amount as int * rate) / 10_000 <= amount,
{
    lemma_mul_inequality(rate, 10_000, amount as int);
    vstd::arithmetic::mul::lemma_mul_is_commutative(rate, amount as int);
    vstd::arithmetic::mul::lemma_mul_is_commutative(10_000, amount as int);
    lemma_div_is_ordered(amount as int * rate, amount as int * 10_000, 10_000);
    lemma_div_multiples_vanish(amount as int, 10_000);
    vstd::arithmetic::mul::lemma_mul_nonnegative(amount as int, rate);
    vstd::arithmetic::div_mod::lemma_div_pos_is_pos(amount as int * rate, 10_000);
}

/// The fee rate never rises as time passes: 9900 bps, then the ramp from
/// 9176 down to 959 bps, then 100 bps.
pub proof fn lemma_fee_rate_monotonic(e1: u64, e2: u64)
    requires
        e1 <= e2,
    ensures
        spec_fee_rate_bps(e1) >= spec_fee_rate_bps(e2),
{
    lemma_fee_rate_bounds(e1);
    lemma_fee_rate_bounds(e2);
    if 150 <= e1 < 250 && 150 <= e2 < 250 {
        lemma_div_is_ordered(
            2_162_600_000 - 8_300_000 * e2 as int,
            2_162_600_000 - 8_300_000 * e1 as int,
            100_000,
        );
    }
}

/// The fee rate always lies between 1% and 99%, and the ramp phase stays
/// between 959 and 9176 basis points.
pub proof fn lemma_fee_rate_bounds(e: u64)
    ensures
        100 <= spec_fee_rate_bps(e) <= 9900,
        150 <= e < 250 ==> 959 <= spec_fee_rate_bps(e) <= 9176,
{
    if 150 <= e < 250 {
        let num = 2_162_600_000 - 8_300_000 * e as int;
        assert(95_900_000 <= num <= 917_600_000);
        lemma_div_is_ordered(95_900_000, num, 100_000);
        lemma_div_is_ordered(num, 917_600_000, 100_000);
    }
}

/// The internal consistency a record keeps while the swap engine alone
/// mutates it: the completion flag is a boolean, virtual reserves never fall
/// below the real reserves they price, the seeded reserve fits inside the
/// supply, and a completed curve holds no real token reserves.
pub open spec fn spec_well_formed(c: BondingCurve) -> bool {
    &&& c.complete <= 1
    &&& c.virtual_token_reserves >= c.real_token_reserves
    &&& c.virtual_sol_reserves >= c.real_sol_reserves
    &&& c.initial_real_token_reserves <= c.token_total_supply
    &&& (c.complete == 1 ==> c.real_token_reserves == 0)
}

/// All four post-trade consistency checks: the custody base balance covers
/// the accounted real base reserves; the custody token balance equals the
/// accounted real token reserves plus the supply that was never the curve's
/// to sell; a completed curve holds no real token reserves; and an active
/// curve keeps its token custody frozen.
pub open spec fn spec_invariant_holds(
    c: BondingCurve,
    token_balance: u64,
    sol_escrow_lamports: u64,
    token_account_frozen: bool,
) -> bool {
    &&& sol_escrow_lamports >= c.real_sol_reserves
    &&& token_balance == c.real_token_reserves + (c.token_total_supply
        - c.initial_real_token_reserves)
    &&& (c.complete == 1 ==> c.real_token_reserves == 0)
    &&& (c.complete == 0 ==> token_account_frozen)
}

/// While the invariant checker passes and custody cannot hold more tokens
/// than were ever minted, the accounted real token reserves never exceed the
/// seeded reserve.
pub proof fn lemma_custody_bounds_real_reserves(
    c: BondingCurve,
    token_balance: u64,
    sol_escrow_lamports: u64,
    token_account_frozen: bool,
)
    requires
        c.initial_real_token_reserves <= c.token_total_supply,
        token_balance <= c.token_total_supply,
        spec_invariant_holds(c, token_balance, sol_escrow_lamports, token_account_frozen),
    ensures
        c.real_token_reserves <= c.initial_real_token_reserves,
{
}

/// The state and result of an accepted sell of `token_amount`: both token
/// reserves grow by the tokens returned, both base reserves shrink by the
/// quoted payout. `None` (and no change) when the quote fails, a token
/// reserve would leave the 64-bit range, or the payout exceeds the real base
/// reserves.
pub open spec fn spec_apply_sell(c: BondingCurve, token_amount: u64, decimals: u8) -> Option<
    (BondingCurve, SellResult),
> {
    match spec_sell_quote(
        c.virtual_sol_reserves,
        c.virtual_token_reserves,
        token_amount,
        decimals,
    ) {
        None => None,
        Some(sol_amount) => {
            if c.virtual_token_reserves + token_amount > u64::MAX {
                None
            } else if c.real_token_reserves + token_amount > u64::MAX {
                None
            } else if sol_amount > c.real_sol_reserves {
                None
            } else {
                Some(
                    (
                        BondingCurve {
                            virtual_token_reserves: (c.virtual_token_reserves + token_amount)
                                as u64,
                            real_token_reserves: (c.real_token_reserves + token_amount) as u64,
                            virtual_sol_reserves: (c.virtual_sol_reserves - sol_amount) as u64,
                            real_sol_reserves: (c.real_sol_reserves - sol_amount) as u64,
                            ..c
                        },
                        SellResult { token_amount, sol_amount },
                    ),
                )
            }
        },
    }
}

/// Commits a buy of `token_amount` tokens for `sol_amount` of base currency:
/// token reserves shrink, base reserves grow. `None` when a reserve would
/// leave its range.
pub open spec fn spec_commit_buy(c: BondingCurve, token_amount: u64, sol_amount: u64) -> Option<
    (BondingCurve, BuyResult),
> {
    if token_amount > c.virtual_token_reserves {
        None
    } else if token_amount > c.real_token_reserves {
        None
    } else if c.virtual_sol_reserves + sol_amount > u64::MAX {
        None
    } else if c.real_sol_reserves + sol_amount > u64::MAX {
        None
    } else {
        Some(
            (
                BondingCurve {
                    virtual_token_reserves: (c.virtual_token_reserves - token_amount) as u64,
                    real_token_reserves: (c.real_token_reserves - token_amount) as u64,
                    virtual_sol_reserves: (c.virtual_sol_reserves + sol_amount) as u64,
                    real_sol_reserves: (c.real_sol_reserves + sol_amount) as u64,
                    ..c
                },
                BuyResult { token_amount, sol_amount },
            ),
        )
    }
}

/// The state and result of an accepted buy paying `sol_amount` (net of fee).
/// When the quote covers the whole remaining real token reserve this is the
/// terminal buy: the amount is clamped to that reserve, the base cost is
/// requoted via the sell formula against the reserves projected to the raise
/// target, and the record completes. `None` (and no change) when any step
/// fails.
pub open spec fn spec_apply_buy(c: BondingCurve, sol_amount: u64, decimals: u8) -> Option<
    (BondingCurve, BuyResult),
> {
    match spec_buy_quote(c.virtual_sol_reserves, c.virtual_token_reserves, sol_amount, decimals) {
        None => None,
        Some(quoted) => {
            if quoted >= c.real_token_reserves {
                let token_amount = c.real_token_reserves;
                if token_amount > c.virtual_token_reserves {
                    None
                } else {
                    match spec_sell_quote(
                        TERMINAL_VIRTUAL_SOL_RESERVES,
                        (c.virtual_token_reserves - token_amount) as u64,
                        token_amount,
                        decimals,
                    ) {
                        None => None,
                        Some(terminal_sol) => spec_commit_buy(
                            BondingCurve { complete: 1, ..c },
                            token_amount,
                            terminal_sol,
                        ),
                    }
                }
            } else {
                spec_commit_buy(c, quoted, sol_amount)
            }
        },
    }
}

impl BondingCurve {
    /// Trading is open once the ledger clock has reached the record's
    /// starting slot.
    pub fn is_started(&self, current_slot: u64) -> (r: bool)
        ensures
            r == (current_slot >= self.starting_slot),
    {
        current_slot >= self.starting_slot
    }

    /// Builds the record a new curve starts from: seeded from the validated
    /// configuration, with no real base reserves, not complete, and opening
    /// at the given slot. A configuration whose virtual token reserves cover
    /// the seeded real reserve yields a well-formed record.
    pub fn init(
        bump: u8,
        configs: &crate::global_config::GlobalConfig,
        creator_key: &Pubkey,
        mint: &Pubkey,
        slot: u64,
    ) -> (c: BondingCurve)
        ensures
            c.complete == 0,
            c.bump == bump,
            c.starting_slot == slot,
            c.creator == *creator_key,
            c.mint == *mint,
            c.initial_real_token_reserves == configs.initial_real_token_reserves,
            c.real_sol_reserves == 0,
            c.real_token_reserves == configs.initial_real_token_reserves,
            c.virtual_sol_reserves == configs.initial_virtual_sol_reserves,
            c.virtual_token_reserves == configs.initial_virtual_token_reserves,
            c.token_total_supply == configs.token_total_supply,
            (configs.initial_virtual_token_reserves >= configs.initial_real_token_reserves
                && configs.token_total_supply >= configs.initial_real_token_reserves)
                ==> spec_well_formed(c),
    {
        BondingCurve {
            complete: 0,
            bump,
            mint: *mint,
            creator: *creator_key,
            initial_real_token_reserves: configs.initial_real_token_reserves,
            virtual_sol_reserves: configs.initial_virtual_sol_reserves,
            virtual_token_reserves: configs.initial_virtual_token_reserves,
            real_sol_reserves: 0,
            real_token_reserves: configs.initial_real_token_reserves,
            token_total_supply: configs.token_total_supply,
            starting_slot: slot,
        }
    }

    /// Applies a sell of `token_amount` tokens: quotes the payout and moves
    /// every reserve, or changes nothing. Real token reserves never decrease
    /// and real base reserves never increase across a sell.
    pub fn apply_sell(&mut self, token_amount: u64, decimals: u8) -> (r: Option<SellResult>)
        requires
            decimals <= 9,
        ensures
            ({
                let t = spec_apply_sell(*old(self), token_amount, decimals);
                &&& (t is None ==> r is None && *final(self) == *old(self))
                &&& (t matches Some(p) ==> r == Some(p.1) && *final(self) == p.0)
            }),
            r is None ==> *final(self) == *old(self),
            r is Some ==> final(self).real_token_reserves >= old(self).real_token_reserves
                && final(self).real_sol_reserves <= old(self).real_sol_reserves,
            (r is Some && spec_well_formed(*old(self)) && old(self).complete == 0)
                ==> spec_well_formed(*final(self)),
    {
        let sol_amount = match self.get_sol_for_sell_tokens(token_amount, decimals) {
            None => { return None; },
            Some(s) => s,
        };

        let new_virtual_token_reserves = (self.virtual_token_reserves as u128) + (
        token_amount as u128);
        let new_real_token_reserves = (self.real_token_reserves as u128) + (token_amount as u128);

        if new_virtual_token_reserves > u64::MAX as u128 {
            return None;
        }
        if new_real_token_reserves > u64::MAX as u128 {
            return None;
        }
        if sol_amount > self.real_sol_reserves {
            return None;
        }

        self.virtual_token_reserves = new_virtual_token_reserves as u64;
        self.real_token_reserves = new_real_token_reserves as u64;
        self.virtual_sol_reserves = self.virtual_sol_reserves - sol_amount;
        self.real_sol_reserves = self.real_sol_reserves - sol_amount;

        Some(SellResult { token_amount, sol_amount })
    }

    /// Applies a buy paying `sol_amount` of base currency (net of fee):
    /// quotes the tokens out, completes the curve when the quote reaches the
    /// remaining real reserve, and moves every reserve, or changes nothing.
    /// Real token reserves never increase and real base reserves never
    /// decrease across a buy, and the terminal buy leaves exactly zero real
    /// token reserves.
    pub fn apply_buy(&mut self, sol_amount: u64, decimals: u8) -> (r: Option<BuyResult>)
        requires
            decimals <= 9,
        ensures
            ({
                let t = spec_apply_buy(*old(self), sol_amount, decimals);
                &&& (t is None ==> r is None && *final(self) == *old(self))
                &&& (t matches Some(p) ==> r == Some(p.1) && *final(self) == p.0)
            }),
            r is None ==> *final(self) == *old(self),
            r is Some ==> final(self).real_token_reserves <= old(self).real_token_reserves
                && final(self).real_sol_reserves >= old(self).real_sol_reserves,
            ((spec_buy_quote(
                old(self).virtual_sol_reserves,
                old(self).virtual_token_reserves,
                sol_amount,
                decimals,
            ) matches Some(q) && q >= old(self).real_token_reserves) && r is Some)
                ==> (final(self).complete == 1 && final(self).real_token_reserves == 0),
            (r is Some && spec_well_formed(*old(self)) && old(self).complete == 0)
                ==> spec_well_formed(*final(self)),
    {
        let quoted = match self.get_tokens_for_buy_sol(sol_amount, decimals) {
            None => { return None; },
            Some(t) => t,
        };

        let mut token_amount = quoted;
        let mut pay_sol = sol_amount;
        let mut completing = false;

        if quoted >= self.real_token_reserves {
            token_amount = self.real_token_reserves;
            if token_amount > self.virtual_token_reserves {
                return None;
            }
            let projected = BondingCurve {
                virtual_token_reserves: self.virtual_token_reserves - token_amount,
                virtual_sol_reserves: TERMINAL_VIRTUAL_SOL_RESERVES,
                ..*self
            };
            pay_sol = match projected.get_sol_for_sell_tokens(token_amount, decimals) {
                None => { return None; },
                Some(s) => s,
            };
            completing = true;
        }

        if token_amount > self.virtual_token_reserves {
            return None;
        }
        if token_amount > self.real_token_reserves {
            return None;
        }
        let new_virtual_sol_reserves = (self.virtual_sol_reserves as u128) + (pay_sol as u128);
        let new_real_sol_reserves = (self.real_sol_reserves as u128) + (pay_sol as u128);
        if new_virtual_sol_reserves > u64::MAX as u128 {
            return None;
        }
        if new_real_sol_reserves > u64::MAX as u128 {
            return None;
        }

        self.virtual_token_reserves = self.virtual_token_reserves - token_amount;
        self.real_token_reserves = self.real_token_reserves - token_amount;
        self.virtual_sol_reserves = new_virtual_sol_reserves as u64;
        self.real_sol_reserves = new_real_sol_reserves as u64;
        if completing {
            self.complete = 1;
        }

        Some(BuyResult { token_amount, sol_amount: pay_sol })
    }

    /// Computes the trading fee on `amount` for the phase the curve is in at
    /// `current_slot`. The rate never exceeds 100%, so the fee always fits
    /// and never exceeds the amount; the checked arithmetic can therefore
    /// never fail.
    pub fn calculate_fee(&self, current_slot: u64, amount: u64) -> (r: Result<
        u64,
        ArithmeticError,
    >)
        requires
            current_slot >= self.starting_slot,
        ensures
            r == Ok::<u64, ArithmeticError>(
                spec_fee((current_slot - self.starting_slot) as u64, amount) as u64,
            ),
            0 <= spec_fee((current_slot - self.starting_slot) as u64, amount) <= amount,
    {
        let slots_passed = current_slot - self.starting_slot;
        proof {
            lemma_fee_rate_bounds(slots_passed);
        }

        let sol_fee: u64;
        if slots_passed < 150 {
            proof {
                lemma_fee_bounded(amount, 9900);
            }
            sol_fee = bps_mul(9900, amount, 10_000).unwrap();
        } else if slots_passed < 250 {
            let fee_bps = (2_162_600_000 - 8_300_000 * slots_passed) / 100_000;
            proof {
                lemma_fee_bounded(amount, fee_bps as int);
            }
            sol_fee = bps_mul(fee_bps, amount, 10_000).unwrap();
        } else {
            proof {
                lemma_fee_bounded(amount, 100);
            }
            sol_fee = bps_mul(100, amount, 10_000).unwrap();
        }
        Ok(sol_fee)
    }

    /// Runs the four post-trade consistency checks against the custody
    /// balances, in order, and reports the first violated one. Passing means
    /// exactly that [`spec_invariant_holds`] does.
    pub fn check_invariant(
        &self,
        token_balance: u64,
        sol_escrow_lamports: u64,
        token_account_frozen: bool,
    ) -> (r: Result<(), InvariantError>)
        requires
            self.initial_real_token_reserves <= self.token_total_supply,
        ensures
            r is Ok <==> spec_invariant_holds(
                *self,
                token_balance,
                sol_escrow_lamports,
                token_account_frozen,
            ),
            r == Err::<(), InvariantError>(InvariantError::BaseBalanceTooLow)
                <==> sol_escrow_lamports < self.real_sol_reserves,
            r == Err::<(), InvariantError>(InvariantError::TokenBalanceMismatch)
                <==> (sol_escrow_lamports >= self.real_sol_reserves && token_balance
                != self.real_token_reserves + (self.token_total_supply
                    - self.initial_real_token_reserves)),
            r == Err::<(), InvariantError>(InvariantError::CompletedWithTokenReserves)
                <==> (sol_escrow_lamports >= self.real_sol_reserves && token_balance
                == self.real_token_reserves + (self.token_total_supply
                    - self.initial_real_token_reserves) && self.complete == 1
                && self.real_token_reserves != 0),
            r == Err::<(), InvariantError>(InvariantError::NotFrozen) <==> (sol_escrow_lamports
                >= self.real_sol_reserves && token_balance == self.real_token_reserves + (
            self.token_total_supply - self.initial_real_token_reserves) && !(self.complete == 1
                && self.real_token_reserves != 0) && self.complete == 0 && !token_account_frozen),
    {
        if sol_escrow_lamports < self.real_sol_reserves {
            return Err(InvariantError::BaseBalanceTooLow);
        }

        let outside_reserves = self.token_total_supply - self.initial_real_token_reserves;
        if token_balance < outside_reserves || token_balance - outside_reserves
            != self.real_token_reserves {
            return Err(InvariantError::TokenBalanceMismatch);
        }

        if self.complete == 1 && self.real_token_reserves != 0 {
            return Err(InvariantError::CompletedWithTokenReserves);
        }

        if self.complete == 0 && !token_account_frozen {
            return Err(InvariantError::NotFrozen);
        }

        Ok(())
    }

    /// Parses the 128-byte stored layout: completion flag, bump, 6 bytes
    /// padding, creator, mint, then the seven 8-byte reserve fields in order.
    /// Fails closed on any other length.
    pub fn from_bytes(bytes: &[u8]) -> (r: Option<BondingCurve>)
        ensures
            r is Some <==> bytes@.len() == 128,
            r matches Some(c) ==> {
                &&& c.complete == bytes@[0]
                &&& c.bump == bytes@[1]
                &&& c.creator@ == bytes@.subrange(8, 40)
                &&& c.mint@ == bytes@.subrange(40, 72)
                &&& c.initial_real_token_reserves == spec_u64_from_le_bytes(
                    bytes@.subrange(72, 80),
                )
                &&& c.virtual_sol_reserves == spec_u64_from_le_bytes(bytes@.subrange(80, 88))
                &&& c.virtual_token_reserves == spec_u64_from_le_bytes(bytes@.subrange(88, 96))
                &&& c.real_sol_reserves == spec_u64_from_le_bytes(bytes@.subrange(96, 104))
                &&& c.real_token_reserves == spec_u64_from_le_bytes(bytes@.subrange(104, 112))
                &&& c.token_total_supply == spec_u64_from_le_bytes(bytes@.subrange(112, 120))
                &&& c.starting_slot == spec_u64_from_le_bytes(bytes@.subrange(120, 128))
            },
    {
        if bytes.len() != 128 {
            return None;
        }
        Some(
            BondingCurve {
                complete: bytes[0],
                bump: bytes[1],
                creator: read_pubkey(bytes, 8),
                mint: read_pubkey(bytes, 40),
                initial_real_token_reserves: read_u64_le(bytes, 72),
                virtual_sol_reserves: read_u64_le(bytes, 80),
                virtual_token_reserves: read_u64_le(bytes, 88),
                real_sol_reserves: read_u64_le(bytes, 96),
                real_token_reserves: read_u64_le(bytes, 104),
                token_total_supply: read_u64_le(bytes, 112),
                starting_slot: read_u64_le(bytes, 120),
            },
        )
    }

    /// The 128-byte stored layout of this record.
    pub open spec fn spec_to_bytes(&self) -> Seq<u8> {
        seq![self.complete, self.bump] + spec_zeros(6) + self.creator@ + self.mint@
            + spec_u64_to_le_bytes(self.initial_real_token_reserves) + spec_u64_to_le_bytes(
            self.virtual_sol_reserves,
        ) + spec_u64_to_le_bytes(self.virtual_token_reserves) + spec_u64_to_le_bytes(
            self.real_sol_reserves,
        ) + spec_u64_to_le_bytes(self.real_token_reserves) + spec_u64_to_le_bytes(
            self.token_total_supply,
        ) + spec_u64_to_le_bytes(self.starting_slot)
    }

    /// Serializes the record into its 128-byte stored layout.
    pub fn to_bytes(&self) -> (out: Vec<u8>)
        ensures
            out@ == self.spec_to_bytes(),
            out@.len() == 128,
    {
        let mut out: Vec<u8> = Vec::new();
        out.push(self.complete);
        out.push(self.bump);
        push_zeros(&mut out, 6);
        push_pubkey(&mut out, &self.creator);
        push_pubkey(&mut out, &self.mint);
        push_u64_le(&mut out, self.initial_real_token_reserves);
        push_u64_le(&mut out, self.virtual_sol_reserves);
        push_u64_le(&mut out, self.virtual_token_reserves);
        push_u64_le(&mut out, self.real_sol_reserves);
        push_u64_le(&mut out, self.real_token_reserves);
        push_u64_le(&mut out, self.token_total_supply);
        push_u64_le(&mut out, self.starting_slot);
        proof {
            vstd::bytes::lemma_auto_spec_u64_to_from_le_bytes();
            assert(out@ =~= self.spec_to_bytes());
        }
        out
    }
}

/// Writing a reserve record and reading it back yields the record: the
/// stored layout loses nothing.
pub proof fn lemma_curve_bytes_round_trip(c: BondingCurve)
    ensures
        c.spec_to_bytes().len() == 128,
        c.spec_to_bytes()[0] == c.complete,
        c.spec_to_bytes()[1] == c.bump,
        c.spec_to_bytes().subrange(8, 40) == c.creator@,
        c.spec_to_bytes().subrange(40, 72) == c.mint@,
        spec_u64_from_le_bytes(c.spec_to_bytes().subrange(72, 80))
            == c.initial_real_token_reserves,
        spec_u64_from_le_bytes(c.spec_to_bytes().subrange(80, 88)) == c.virtual_sol_reserves,
        spec_u64_from_le_bytes(c.spec_to_bytes().subrange(88, 96)) == c.virtual_token_reserves,
        spec_u64_from_le_bytes(c.spec_to_bytes().subrange(96, 104)) == c.real_sol_reserves,
        spec_u64_from_le_bytes(c.spec_to_bytes().subrange(104, 112)) == c.real_token_reserves,
        spec_u64_from_le_bytes(c.spec_to_bytes().subrange(112, 120)) == c.token_total_supply,
        spec_u64_from_le_bytes(c.spec_to_bytes().subrange(120, 128)) == c.starting_slot,
{
    vstd::bytes::lemma_auto_spec_u64_to_from_le_bytes();
    let b = c.spec_to_bytes();
    assert(b.subrange(8, 40) =~= c.creator@);
    assert(b.subrange(40, 72) =~= c.mint@);
    assert(b.subrange(72, 80) =~= spec_u64_to_le_bytes(c.initial_real_token_reserves));
    assert(b.subrange(80, 88) =~= spec_u64_to_le_bytes(c.virtual_sol_reserves));
    assert(b.subrange(88, 96) =~= spec_u64_to_le_bytes(c.virtual_token_reserves));
    assert(b.subrange(96, 104) =~= spec_u64_to_le_bytes(c.real_sol_reserves));
    assert(b.subrange(104, 112) =~= spec_u64_to_le_bytes(c.real_token_reserves));
    assert(b.subrange(112, 120) =~= spec_u64_to_le_bytes(c.token_total_supply));
    assert(b.subrange(120, 128) =~= spec_u64_to_le_bytes(c.starting_slot));
}

/// The record after a whole sequence of buy attempts, each paying the next
/// amount in the sequence: an accepted buy moves the reserves, a rejected
/// one leaves them exactly as they were.
pub open spec fn spec_run_buys(c: BondingCurve, amounts: Seq<u64>, decimals: u8) -> BondingCurve
    decreases amounts.len(),
{
    if amounts.len() == 0 {
        c
    } else {
        let c1 = match spec_apply_buy(c, amounts[0], decimals) {
            None => c,
            Some(p) => p.0,
        };
        spec_run_buys(c1, amounts.drop_first(), decimals)
    }
}

/// The record after a whole sequence of sell attempts, each returning the
/// next token amount in the sequence.
pub open spec fn spec_run_sells(c: BondingCurve, amounts: Seq<u64>, decimals: u8) -> BondingCurve
    decreases amounts.len(),
{
    if amounts.len() == 0 {
        c
    } else {
        let c1 = match spec_apply_sell(c, amounts[0], decimals) {
            None => c,
            Some(p) => p.0,
        };
        spec_run_sells(c1, amounts.drop_first(), decimals)
    }
}

/// Across any sequence of buys, the real token reserves never increase and
/// the real base reserves never decrease.
pub proof fn lemma_buys_monotonic(c: BondingCurve, amounts: Seq<u64>, decimals: u8)
    ensures
        spec_run_buys(c, amounts, decimals).real_token_reserves <= c.real_token_reserves,
        spec_run_buys(c, amounts, decimals).real_sol_reserves >= c.real_sol_reserves,
    decreases amounts.len(),
{
    if amounts.len() > 0 {
        let c1 = match spec_apply_buy(c, amounts[0], decimals) {
            None => c,
            Some(p) => p.0,
        };
        lemma_buys_monotonic(c1, amounts.drop_first(), decimals);
    }
}

/// Across any sequence of sells, the real token reserves never decrease and
/// the real base reserves never increase.
pub proof fn lemma_sells_monotonic(c: BondingCurve, amounts: Seq<u64>, decimals: u8)
    ensures
        spec_run_sells(c, amounts, decimals).real_token_reserves >= c.real_token_reserves,
        spec_run_sells(c, amounts, decimals).real_sol_reserves <= c.real_sol_reserves,
    decreases amounts.len(),
{
    if amounts.len() > 0 {
        let c1 = match spec_apply_sell(c, amounts[0], decimals) {
            None => c,
            Some(p) => p.0,
        };
        lemma_sells_monotonic(c1, amounts.drop_first(), decimals);
    }
}

/// Quoting is idempotent: two quotes against identical reserves for an
/// identical input are identical. The quote functions return exactly these
/// spec values and take the record by shared reference, so no call can
/// change what the next one sees.
pub proof fn lemma_quote_deterministic(
    c1: BondingCurve,
    c2: BondingCurve,
    amount1: u64,
    amount2: u64,
    decimals1: u8,
    decimals2: u8,
)
    requires
        c1 == c2,
        amount1 == amount2,
        decimals1 == decimals2,
    ensures
        spec_buy_quote(c1.virtual_sol_reserves, c1.virtual_token_reserves, amount1, decimals1)
            == spec_buy_quote(
            c2.virtual_sol_reserves,
            c2.virtual_token_reserves,
            amount2,
            decimals2,
        ),
        spec_sell_quote(c1.virtual_sol_reserves, c1.virtual_token_reserves, amount1, decimals1)
            == spec_sell_quote(
            c2.virtual_sol_reserves,
            c2.virtual_token_reserves,
            amount2,
            decimals2,
        ),
{
}

} // verus!
