//! One whole swap against a bonding curve: lifecycle gate, quote, fee,
//! slippage gate, and the all-or-nothing commit of the reserve mutation.
//!
//! A buy charges its fee on the base paid in before quoting; a sell quotes
//! first and charges the fee on the base paid out. The fee is denominated in
//! base currency in both directions, which is why the two paths differ.

use vstd::prelude::*;
use vstd::bytes::{spec_u64_from_le_bytes, spec_u64_to_le_bytes};
use crate::bonding_curve::{
    spec_apply_buy, spec_apply_sell, spec_fee, spec_well_formed, BondingCurve, SellResult,
    BuyResult,
};
use crate::codec::{push_u64_le, push_zeros, read_u64_le, spec_zeros};
use crate::errors::AmmError;
use crate::helpers::require;

verus! {

/// One swap request as it arrives on the wire: direction, exact input
/// amount, and the caller's minimum acceptable output.
#[derive(Clone, Copy, Debug, PartialEq, Eq, Structural)]
pub struct SwapParams {
    /// 1 to sell tokens for base currency, 0 to buy tokens with base.
    pub base_in: u8,
    /// The exact amount paid in (tokens for a sell, base for a buy).
    pub exact_in_amount: u64,
    /// The smallest output the caller accepts.
    pub min_out_amount: u64,
}

/// The amounts an accepted swap settles: what moves in each direction and
/// the fee owed on top.
#[derive(Clone, Copy, Debug, PartialEq, Eq, Structural)]
pub struct SwapOutcome {
    /// Tokens moved (out of custody for a buy, into custody for a sell).
    pub token_amount: u64,
    /// Base currency moved (into the curve for a buy, out for a sell).
    pub sol_amount: u64,
    /// The fee in base currency, paid separately to the fee receiver.
    pub fee_lamports: u64,
}

impl SwapParams {
    /// Stored size of a request in bytes.
    pub const PARAMS_SIZE: usize = 24;

    /// Parses the 24-byte wire layout: direction byte, 7 bytes padding,
    /// exact input, minimum output. Fails closed on any other length and on
    /// any direction byte other than 0 or 1.
    pub fn from_bytes(bytes: &[u8]) -> (r: Option<SwapParams>)
        ensures
            r is Some <==> (bytes@.len() == 24 && bytes@[0] <= 1),
            r matches Some(p) ==> {
                &&& p.base_in == bytes@[0]
                &&& p.exact_in_amount == spec_u64_from_le_bytes(bytes@.subrange(8, 16))
                &&& p.min_out_amount == spec_u64_from_le_bytes(bytes@.subrange(16, 24))
            },
    {
        if bytes.len() != 24 {
            return None;
        }
        if bytes[0] > 1 {
            return None;
        }
        Some(
            SwapParams {
                base_in: bytes[0],
                exact_in_amount: read_u64_le(bytes, 8),
                min_out_amount: read_u64_le(bytes, 16),
            },
        )
    }

    /// The 24-byte wire layout of this request.
    pub open spec fn spec_to_bytes(&self) -> Seq<u8> {
        seq![self.base_in] + spec_zeros(7) + spec_u64_to_le_bytes(self.exact_in_amount)
            + spec_u64_to_le_bytes(self.min_out_amount)
    }

    /// Serializes the request into its 24-byte wire layout.
    pub fn to_bytes(&self) -> (out: Vec<u8>)
        ensures
            out@ == self.spec_to_bytes(),
            out@.len() == 24,
    {
        let mut out: Vec<u8> = Vec::new();
        out.push(self.base_in);
        push_zeros(&mut out, 7);
        push_u64_le(&mut out, self.exact_in_amount);
        push_u64_le(&mut out, self.min_out_amount);
        proof {
            vstd::bytes::lemma_auto_spec_u64_to_from_le_bytes();
            assert(out@ =~= self.spec_to_bytes());
        }
        out
    }
}

/// Rejects a sell whose base payout falls short of the caller's minimum.
pub fn complete_sell(sell_result: &SellResult, min_out_amount: u64) -> (r: Result<(), AmmError>)
    ensures
        r is Ok <==> sell_result.sol_amount >= min_out_amount,
        r is Err ==> r == Err::<(), AmmError>(AmmError::SlippageExceeded),
{
    require(sell_result.sol_amount >= min_out_amount, AmmError::SlippageExceeded)
}

/// Rejects a buy whose token output falls short of the caller's minimum.
pub fn complete_buy(buy_result: &BuyResult, min_out_amount: u64) -> (r: Result<(), AmmError>)
    ensures
        r is Ok <==> buy_result.token_amount >= min_out_amount,
        r is Err ==> r == Err::<(), AmmError>(AmmError::SlippageExceeded),
{
    require(buy_result.token_amount >= min_out_amount, AmmError::SlippageExceeded)
}

/// The whole decision a swap request comes down to: the mutated record and
/// the settled amounts on success, or the exact error and an unchanged
/// record. A completed curve rejects everything; a curve whose starting slot
/// is still ahead of the clock rejects everything; a sell quotes, fees the
/// payout and gates on slippage; a buy fees the payment, quotes and gates on
/// slippage.
pub open spec fn spec_process_swap(
    c: BondingCurve,
    params: SwapParams,
    decimals: u8,
    current_slot: u64,
) -> Result<(BondingCurve, SwapOutcome), AmmError> {
    if c.complete != 0 {
        Err(AmmError::CurveComplete)
    } else if current_slot < c.starting_slot {
        Err(AmmError::CurveNotStarted)
    } else {
        let elapsed = (current_slot - c.starting_slot) as u64;
        if params.base_in == 1 {
            match spec_apply_sell(c, params.exact_in_amount, decimals) {
                None => Err(AmmError::CouldNotSell),
                Some(p) => if p.1.sol_amount < params.min_out_amount {
                    Err(AmmError::SlippageExceeded)
                } else {
                    Ok(
                        (
                            p.0,
                            SwapOutcome {
                                token_amount: p.1.token_amount,
                                sol_amount: p.1.sol_amount,
                                fee_lamports: spec_fee(elapsed, p.1.sol_amount) as u64,
                            },
                        ),
                    )
                },
            }
        } else {
            let fee = spec_fee(elapsed, params.exact_in_amount);
            let buy_amount = (params.exact_in_amount - fee) as u64;
            match spec_apply_buy(c, buy_amount, decimals) {
                None => Err(AmmError::CouldNotBuy),
                Some(p) => if p.1.token_amount < params.min_out_amount {
                    Err(AmmError::SlippageExceeded)
                } else {
                    Ok(
                        (
                            p.0,
                            SwapOutcome {
                                token_amount: p.1.token_amount,
                                sol_amount: p.1.sol_amount,
                                fee_lamports: fee as u64,
                            },
                        ),
                    )
                },
            }
        }
    }
}

/// Runs one swap request against the record: returns exactly what
/// [`spec_process_swap`] decides, and on any error leaves the record
/// untouched — no partial mutation ever survives a failed swap.
pub fn process_swap(
    curve: &mut BondingCurve,
    params: &SwapParams,
    decimals: u8,
    current_slot: u64,
) -> (r: Result<SwapOutcome, AmmError>)
    requires
        decimals <= 9,
    ensures
        ({
            let t = spec_process_swap(*old(curve), *params, decimals, current_slot);
            &&& (t matches Ok(p) ==> r == Ok::<SwapOutcome, AmmError>(p.1) && *final(curve)
                == p.0)
            &&& (t matches Err(e) ==> r == Err::<SwapOutcome, AmmError>(e) && *final(curve)
                == *old(curve))
        }),
        r is Err ==> *final(curve) == *old(curve),
        (r is Ok && spec_well_formed(*old(curve))) ==> spec_well_formed(*final(curve)),
{
    if curve.complete != 0 {
        return Err(AmmError::CurveComplete);
    }
    if !curve.is_started(current_slot) {
        return Err(AmmError::CurveNotStarted);
    }

    if params.base_in == 1 {
        // Sell: quote and stage the mutation, fee the payout, gate on
        // slippage, then commit.
        let mut staged = *curve;
        let sell_result = match staged.apply_sell(params.exact_in_amount, decimals) {
            None => { return Err(AmmError::CouldNotSell); },
            Some(s) => s,
        };
        let fee_lamports = curve.calculate_fee(current_slot, sell_result.sol_amount).unwrap();
        complete_sell(&sell_result, params.min_out_amount)?;
        *curve = staged;
        Ok(
            SwapOutcome {
                token_amount: sell_result.token_amount,
                sol_amount: sell_result.sol_amount,
                fee_lamports,
            },
        )
    } else {
        // Buy: fee the payment first, quote and stage with the remainder,
        // gate on slippage, then commit.
        let fee_lamports = curve.calculate_fee(current_slot, params.exact_in_amount).unwrap();
        let buy_amount = params.exact_in_amount - fee_lamports;
        let mut staged = *curve;
        let buy_result = match staged.apply_buy(buy_amount, decimals) {
            None => { return Err(AmmError::CouldNotBuy); },
            Some(b) => b,
        };
        complete_buy(&buy_result, params.min_out_amount)?;
        *curve = staged;
        Ok(
            SwapOutcome {
                token_amount: buy_result.token_amount,
                sol_amount: buy_result.sol_amount,
                fee_lamports,
            },
        )
    }
}

} // verus!
