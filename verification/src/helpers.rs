//! Small shared utilities: guard-style condition checking and
//! basis-point multiplication on wide intermediates.

use vstd::prelude::*;

verus! {

/// A 32-byte ledger identity (an address or a token mint).
pub type Pubkey = [u8; 32];

/// Errors out with `err` if the condition isn't true.
pub fn require<E>(condition: bool, err: E) -> (r: Result<(), E>)
    ensures
        r is Ok <==> condition,
        !condition ==> r == Err::<(), E>(err),
{
    if !condition {
        return Err(err);
    }
    Ok(())
}

/// Byte-for-byte equality of two identities.
pub fn pubkey_eq(a: &Pubkey, b: &Pubkey) -> (r: bool)
    ensures
        r <==> a@ == b@,
{
    let mut i: usize = 0;
    while i < 32
        invariant
            i <= 32,
            forall|j: int| 0 <= j < i ==> a@[j] == b@[j],
        decreases 32 - i,
    {
        if a[i] != b[i] {
            return false;
        }
        i += 1;
    }
    assert(a@ =~= b@);
    true
}

/// `value * bps / divisor` on a 128-bit intermediate, with no truncation of
/// the product; `None` only when the divisor is zero.
pub fn bps_mul_raw(bps: u64, value: u64, divisor: u64) -> (r: Option<u128>)
    ensures
        r == (if divisor == 0 {
            Option::<u128>::None
        } else {
            Option::<u128>::Some(((value as int * bps as int) / divisor as int) as u128)
        }),
{
    proof {
        assert(value * bps <= u128::MAX) by (nonlinear_arith)
            requires
                value <= u64::MAX,
                bps <= u64::MAX,
        ;
    }
    (value as u128).checked_mul(bps as u128)?.checked_div(divisor as u128)
}

/// `value * bps / divisor`, narrowed back to 64 bits; `None` when the
/// quotient does not fit.
pub fn bps_mul(bps: u64, value: u64, divisor: u64) -> (r: Option<u64>)
    requires
        divisor > 0,
    ensures
        r == (if (value as int * bps as int) / divisor as int <= u64::MAX {
            Option::<u64>::Some(((value as int * bps as int) / divisor as int) as u64)
        } else {
            Option::<u64>::None
        }),
{
    proof {
        assert(0 <= (value as int * bps as int) / divisor as int <= value as int * bps as int)
            by (nonlinear_arith)
            requires
                divisor >= 1,
                value >= 0,
                bps >= 0,
        ;
        assert(value as int * bps as int <= u128::MAX) by (nonlinear_arith)
            requires
                value <= u64::MAX,
                bps <= u64::MAX,
        ;
    }
    let raw = bps_mul_raw(bps, value, divisor).unwrap();
    if raw <= u64::MAX as u128 {
        Some(raw as u64)
    } else {
        None
    }
}

} // verus!
