//! The AMM's instruction set and the discriminator byte that selects one.

use vstd::prelude::*;

verus! {

/// The four operations the AMM program routes to.
#[derive(Clone, Copy, Debug, PartialEq, Eq, Structural)]
pub enum AmmInstructions {
    /// Seed the global configuration.
    CreateGlobal,
    /// Re-validate and overwrite the global configuration.
    UpdateGlobal,
    /// Create one bonding-curve reserve record.
    CreateBondingCurve,
    /// Quote and apply one buy or sell.
    Swap,
}

impl AmmInstructions {
    /// Selects the instruction a leading discriminator byte names; every
    /// byte above 3 is rejected.
    pub fn try_from(value: &u8) -> (r: Option<AmmInstructions>)
        ensures
            r == Some(AmmInstructions::CreateGlobal) <==> value == 0,
            r == Some(AmmInstructions::UpdateGlobal) <==> value == 1,
            r == Some(AmmInstructions::CreateBondingCurve) <==> value == 2,
            r == Some(AmmInstructions::Swap) <==> value == 3,
            r is None <==> value > 3,
    {
        match *value {
            0 => Some(AmmInstructions::CreateGlobal),
            1 => Some(AmmInstructions::UpdateGlobal),
            2 => Some(AmmInstructions::CreateBondingCurve),
            3 => Some(AmmInstructions::Swap),
            _ => None,
        }
    }
}

} // verus!
