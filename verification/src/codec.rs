//! Primitives for the fixed-size little-endian record layouts.
//!
//! Every stored record and every instruction payload is a fixed sequence of
//! single bytes, 32-byte identities and 8-byte little-endian integers; these
//! helpers read and write those pieces against their `vstd::bytes` models.

use vstd::prelude::*;
use vstd::bytes::{spec_u64_from_le_bytes, spec_u64_to_le_bytes, u64_from_le_bytes, u64_to_le_bytes};
use vstd::slice::slice_subrange;
use crate::helpers::Pubkey;

verus! {

/// The all-zero padding run of length `n`.
pub open spec fn spec_zeros(n: nat) -> Seq<u8> {
    Seq::new(n, |i: int| 0u8)
}

/// Reads the 8-byte little-endian integer at `off`.
pub fn read_u64_le(bytes: &[u8], off: usize) -> (r: u64)
    requires
        off + 8 <= bytes@.len(),
    ensures
        r == spec_u64_from_le_bytes(bytes@.subrange(off as int, off as int + 8)),
{
    let len = bytes.len();
    assert(off + 8 <= len);
    let part = slice_subrange(bytes, off, off + 8);
    u64_from_le_bytes(part)
}

/// Reads the 32-byte identity at `off`.
pub fn read_pubkey(bytes: &[u8], off: usize) -> (r: Pubkey)
    requires
        off + 32 <= bytes@.len(),
    ensures
        r@ == bytes@.subrange(off as int, off as int + 32),
{
    let len = bytes.len();
    assert(off + 32 <= len);
    let mut r: Pubkey = [0u8; 32];
    let mut i: usize = 0;
    while i < 32
        invariant
            i <= 32,
            off + 32 <= bytes@.len() <= usize::MAX,
            r@.len() == 32,
            forall|j: int| 0 <= j < i ==> r@[j] == bytes@[off + j],
        decreases 32 - i,
    {
        r[i] = bytes[off + i];
        i += 1;
    }
    assert(r@ =~= bytes@.subrange(off as int, off as int + 32));
    r
}

/// Appends the 8-byte little-endian form of `v`.
pub fn push_u64_le(out: &mut Vec<u8>, v: u64)
    ensures
        final(out)@ == old(out)@ + spec_u64_to_le_bytes(v),
{
    let mut piece = u64_to_le_bytes(v);
    out.append(&mut piece);
}

/// Appends the 32 bytes of an identity.
pub fn push_pubkey(out: &mut Vec<u8>, k: &Pubkey)
    ensures
        final(out)@ == old(out)@ + k@,
{
    let mut i: usize = 0;
    while i < 32
        invariant
            i <= 32,
            out@ == old(out)@ + k@.subrange(0, i as int),
        decreases 32 - i,
    {
        out.push(k[i]);
        assert(out@ =~= old(out)@ + k@.subrange(0, i + 1 as int));
        i += 1;
    }
    assert(out@ =~= old(out)@ + k@);
}

/// Appends `n` zero bytes of padding.
pub fn push_zeros(out: &mut Vec<u8>, n: usize)
    ensures
        final(out)@ == old(out)@ + spec_zeros(n as nat),
{
    let mut i: usize = 0;
    while i < n
        invariant
            i <= n,
            out@ == old(out)@ + spec_zeros(i as nat),
        decreases n - i,
    {
        out.push(0u8);
        assert(out@ =~= old(out)@ + spec_zeros((i + 1) as nat));
        i += 1;
    }
}

} // verus!
