//! The protocol-wide seed configuration: the values every new bonding curve
//! is created from, the bounds they must satisfy, and their stored layout.

use vstd::prelude::*;
use vstd::bytes::{spec_u64_from_le_bytes, spec_u64_to_le_bytes};
use crate::codec::{push_pubkey, push_u64_le, push_zeros, read_pubkey, read_u64_le, spec_zeros};
use crate::errors::ValidationError;
use crate::helpers::Pubkey;

verus! {

/// The global configuration record: created once by the administrator,
/// immutable afterwards except through a re-validated update, and read at
/// every curve creation.
#[derive(Clone, Copy, Debug)]
pub struct GlobalConfig {
    /// 1 once the record has been written; 0 in a fresh account.
    pub initialized: u8,
    /// Decimal places of every curve mint; at most 9.
    pub mint_decimals: u8,
    /// The administrator allowed to update this record.
    pub admin: Pubkey,
    /// The account trading fees are sent to.
    pub fee_receiver: Pubkey,
    /// Virtual token reserves a new curve starts with.
    pub initial_virtual_token_reserves: u64,
    /// Virtual base-currency reserves a new curve starts with.
    pub initial_virtual_sol_reserves: u64,
    /// Real token reserves a new curve starts with (the sellable portion).
    pub initial_real_token_reserves: u64,
    /// Total supply minted for each new curve.
    pub token_total_supply: u64,
}

/// The wire form of a configuration create/update request.
#[derive(Clone, Copy, Debug)]
pub struct GlobalSettingsInput {
    /// Decimal places of every curve mint; at most 9.
    pub mint_decimals: u8,
    /// The account trading fees are sent to.
    pub fee_receiver: Pubkey,
    /// The administrator allowed to update the configuration.
    pub admin: Pubkey,
    /// Virtual token reserves a new curve starts with.
    pub initial_virtual_token_reserves: u64,
    /// Virtual base-currency reserves a new curve starts with.
    pub initial_virtual_sol_reserves: u64,
    /// Real token reserves a new curve starts with.
    pub initial_real_token_reserves: u64,
    /// Total supply minted for each new curve.
    pub token_total_supply: u64,
}

impl GlobalSettingsInput {
    /// All bounds a seed configuration must satisfy: decimals within the
    /// 9-decimal base, supply small enough that doubling cannot overflow,
    /// no zero reserve, and some supply outside the sellable reserve.
    pub open spec fn spec_valid(&self) -> bool {
        &&& self.mint_decimals <= 9
        &&& self.token_total_supply <= u64::MAX / 2
        &&& self.initial_virtual_token_reserves > 0
        &&& self.initial_virtual_sol_reserves > 0
        &&& self.initial_real_token_reserves > 0
        &&& self.token_total_supply > self.initial_real_token_reserves
    }

    /// Parses the 104-byte wire layout: decimals, 7 bytes padding,
    /// fee receiver, admin, then the four 8-byte reserve/supply fields.
    /// Fails closed on any other length.
    pub fn from_bytes(bytes: &[u8]) -> (r: Option<GlobalSettingsInput>)
        ensures
            r is Some <==> bytes@.len() == 104,
            r matches Some(p) ==> {
                &&& p.mint_decimals == bytes@[0]
                &&& p.fee_receiver@ == bytes@.subrange(8, 40)
                &&& p.admin@ == bytes@.subrange(40, 72)
                &&& p.initial_virtual_token_reserves == spec_u64_from_le_bytes(
                    bytes@.subrange(72, 80),
                )
                &&& p.initial_virtual_sol_reserves == spec_u64_from_le_bytes(
                    bytes@.subrange(80, 88),
                )
                &&& p.initial_real_token_reserves == spec_u64_from_le_bytes(
                    bytes@.subrange(88, 96),
                )
                &&& p.token_total_supply == spec_u64_from_le_bytes(bytes@.subrange(96, 104))
            },
    {
        if bytes.len() != 104 {
            return None;
        }
        Some(
            GlobalSettingsInput {
                mint_decimals: bytes[0],
                fee_receiver: read_pubkey(bytes, 8),
                admin: read_pubkey(bytes, 40),
                initial_virtual_token_reserves: read_u64_le(bytes, 72),
                initial_virtual_sol_reserves: read_u64_le(bytes, 80),
                initial_real_token_reserves: read_u64_le(bytes, 88),
                token_total_supply: read_u64_le(bytes, 96),
            },
        )
    }

    /// The 104-byte wire layout of this request.
    pub open spec fn spec_to_bytes(&self) -> Seq<u8> {
        seq![self.mint_decimals] + spec_zeros(7) + self.fee_receiver@ + self.admin@
            + spec_u64_to_le_bytes(self.initial_virtual_token_reserves) + spec_u64_to_le_bytes(
            self.initial_virtual_sol_reserves,
        ) + spec_u64_to_le_bytes(self.initial_real_token_reserves) + spec_u64_to_le_bytes(
            self.token_total_supply,
        )
    }

    /// Serializes the request into its 104-byte wire layout.
    pub fn to_bytes(&self) -> (out: Vec<u8>)
        ensures
            out@ == self.spec_to_bytes(),
            out@.len() == 104,
    {
        let mut out: Vec<u8> = Vec::new();
        out.push(self.mint_decimals);
        push_zeros(&mut out, 7);
        push_pubkey(&mut out, &self.fee_receiver);
        push_pubkey(&mut out, &self.admin);
        push_u64_le(&mut out, self.initial_virtual_token_reserves);
        push_u64_le(&mut out, self.initial_virtual_sol_reserves);
        push_u64_le(&mut out, self.initial_real_token_reserves);
        push_u64_le(&mut out, self.token_total_supply);
        proof {
            vstd::bytes::lemma_auto_spec_u64_to_from_le_bytes();
            assert(out@ =~= self.spec_to_bytes());
        }
        out
    }
}

impl GlobalConfig {
    /// Stored size of the record in bytes.
    pub const SIZE: usize = 104;

    /// Rejects a seed configuration unless every bound of
    /// [`GlobalSettingsInput::spec_valid`] holds; the error names the first
    /// bound violated, in the order the bounds are listed.
    pub fn validate_settings(params: &GlobalSettingsInput) -> (r: Result<(), ValidationError>)
        ensures
            r is Ok <==> params.spec_valid(),
            r == Err::<(), ValidationError>(ValidationError::DecimalsTooLarge) <==> params.mint_decimals > 9,
            r == Err::<(), ValidationError>(ValidationError::SupplyTooLarge) <==> (
            params.mint_decimals <= 9 && params.token_total_supply > u64::MAX / 2),
            r == Err::<(), ValidationError>(ValidationError::ZeroVirtualTokenReserves) <==> (
            params.mint_decimals <= 9 && params.token_total_supply <= u64::MAX / 2
                && params.initial_virtual_token_reserves == 0),
            r == Err::<(), ValidationError>(ValidationError::ZeroVirtualBaseReserves) <==> (
            params.mint_decimals <= 9 && params.token_total_supply <= u64::MAX / 2
                && params.initial_virtual_token_reserves > 0
                && params.initial_virtual_sol_reserves == 0),
            r == Err::<(), ValidationError>(ValidationError::ZeroRealTokenReserves) <==> (
            params.mint_decimals <= 9 && params.token_total_supply <= u64::MAX / 2
                && params.initial_virtual_token_reserves > 0
                && params.initial_virtual_sol_reserves > 0
                && params.initial_real_token_reserves == 0),
            r == Err::<(), ValidationError>(ValidationError::SupplyNotAboveRealReserves) <==> (
            params.mint_decimals <= 9 && params.token_total_supply <= u64::MAX / 2
                && params.initial_virtual_token_reserves > 0
                && params.initial_virtual_sol_reserves > 0
                && params.initial_real_token_reserves > 0
                && params.token_total_supply <= params.initial_real_token_reserves),
    {
        if params.mint_decimals > 9 {
            return Err(ValidationError::DecimalsTooLarge);
        }
        if params.token_total_supply > u64::MAX / 2 {
            return Err(ValidationError::SupplyTooLarge);
        }
        if params.initial_virtual_token_reserves == 0 {
            return Err(ValidationError::ZeroVirtualTokenReserves);
        }
        if params.initial_virtual_sol_reserves == 0 {
            return Err(ValidationError::ZeroVirtualBaseReserves);
        }
        if params.initial_real_token_reserves == 0 {
            return Err(ValidationError::ZeroRealTokenReserves);
        }
        if params.token_total_supply <= params.initial_real_token_reserves {
            return Err(ValidationError::SupplyNotAboveRealReserves);
        }
        Ok(())
    }

    /// Builds the stored configuration record from a validated request and
    /// marks it initialized.
    pub fn update_global(params: &GlobalSettingsInput) -> (g: GlobalConfig)
        ensures
            g.initialized == 1,
            g.mint_decimals == params.mint_decimals,
            g.admin == params.admin,
            g.fee_receiver == params.fee_receiver,
            g.initial_virtual_token_reserves == params.initial_virtual_token_reserves,
            g.initial_virtual_sol_reserves == params.initial_virtual_sol_reserves,
            g.initial_real_token_reserves == params.initial_real_token_reserves,
            g.token_total_supply == params.token_total_supply,
    {
        GlobalConfig {
            initialized: 1,
            mint_decimals: params.mint_decimals,
            admin: params.admin,
            fee_receiver: params.fee_receiver,
            initial_virtual_token_reserves: params.initial_virtual_token_reserves,
            initial_virtual_sol_reserves: params.initial_virtual_sol_reserves,
            initial_real_token_reserves: params.initial_real_token_reserves,
            token_total_supply: params.token_total_supply,
        }
    }

    /// Parses the 104-byte stored layout: initialized flag, decimals,
    /// 6 bytes padding, admin, fee receiver, then the four 8-byte fields.
    /// Fails closed on any other length.
    pub fn from_bytes(bytes: &[u8]) -> (r: Option<GlobalConfig>)
        ensures
            r is Some <==> bytes@.len() == 104,
            r matches Some(g) ==> {
                &&& g.initialized == bytes@[0]
                &&& g.mint_decimals == bytes@[1]
                &&& g.admin@ == bytes@.subrange(8, 40)
                &&& g.fee_receiver@ == bytes@.subrange(40, 72)
                &&& g.initial_virtual_token_reserves == spec_u64_from_le_bytes(
                    bytes@.subrange(72, 80),
                )
                &&& g.initial_virtual_sol_reserves == spec_u64_from_le_bytes(
                    bytes@.subrange(80, 88),
                )
                &&& g.initial_real_token_reserves == spec_u64_from_le_bytes(
                    bytes@.subrange(88, 96),
                )
                &&& g.token_total_supply == spec_u64_from_le_bytes(bytes@.subrange(96, 104))
            },
    {
        if bytes.len() != 104 {
            return None;
        }
        Some(
            GlobalConfig {
                initialized: bytes[0],
                mint_decimals: bytes[1],
                admin: read_pubkey(bytes, 8),
                fee_receiver: read_pubkey(bytes, 40),
                initial_virtual_token_reserves: read_u64_le(bytes, 72),
                initial_virtual_sol_reserves: read_u64_le(bytes, 80),
                initial_real_token_reserves: read_u64_le(bytes, 88),
                token_total_supply: read_u64_le(bytes, 96),
            },
        )
    }

    /// The 104-byte stored layout of this record.
    pub open spec fn spec_to_bytes(&self) -> Seq<u8> {
        seq![self.initialized, self.mint_decimals] + spec_zeros(6) + self.admin@
            + self.fee_receiver@ + spec_u64_to_le_bytes(self.initial_virtual_token_reserves)
            + spec_u64_to_le_bytes(self.initial_virtual_sol_reserves) + spec_u64_to_le_bytes(
            self.initial_real_token_reserves,
        ) + spec_u64_to_le_bytes(self.token_total_supply)
    }

    /// Serializes the record into its 104-byte stored layout.
    pub fn to_bytes(&self) -> (out: Vec<u8>)
        ensures
            out@ == self.spec_to_bytes(),
            out@.len() == 104,
    {
        let mut out: Vec<u8> = Vec::new();
        out.push(self.initialized);
        out.push(self.mint_decimals);
        push_zeros(&mut out, 6);
        push_pubkey(&mut out, &self.admin);
        push_pubkey(&mut out, &self.fee_receiver);
        push_u64_le(&mut out, self.initial_virtual_token_reserves);
        push_u64_le(&mut out, self.initial_virtual_sol_reserves);
        push_u64_le(&mut out, self.initial_real_token_reserves);
        push_u64_le(&mut out, self.token_total_supply);
        proof {
            vstd::bytes::lemma_auto_spec_u64_to_from_le_bytes();
            assert(out@ =~= self.spec_to_bytes());
        }
        out
    }
}

/// Writing a configuration record and reading it back yields the record:
/// the stored layout loses nothing.
pub proof fn lemma_config_bytes_round_trip(g: GlobalConfig)
    ensures
        g.spec_to_bytes().len() == 104,
        g.spec_to_bytes()[0] == g.initialized,
        g.spec_to_bytes()[1] == g.mint_decimals,
        g.spec_to_bytes().subrange(8, 40) == g.admin@,
        g.spec_to_bytes().subrange(40, 72) == g.fee_receiver@,
        spec_u64_from_le_bytes(g.spec_to_bytes().subrange(72, 80))
            == g.initial_virtual_token_reserves,
        spec_u64_from_le_bytes(g.spec_to_bytes().subrange(80, 88))
            == g.initial_virtual_sol_reserves,
        spec_u64_from_le_bytes(g.spec_to_bytes().subrange(88, 96))
            == g.initial_real_token_reserves,
        spec_u64_from_le_bytes(g.spec_to_bytes().subrange(96, 104)) == g.token_total_supply,
{
    vstd::bytes::lemma_auto_spec_u64_to_from_le_bytes();
    let b = g.spec_to_bytes();
    assert(b.subrange(8, 40) =~= g.admin@);
    assert(b.subrange(40, 72) =~= g.fee_receiver@);
    assert(b.subrange(72, 80) =~= spec_u64_to_le_bytes(g.initial_virtual_token_reserves));
    assert(b.subrange(80, 88) =~= spec_u64_to_le_bytes(g.initial_virtual_sol_reserves));
    assert(b.subrange(88, 96) =~= spec_u64_to_le_bytes(g.initial_real_token_reserves));
    assert(b.subrange(96, 104) =~= spec_u64_to_le_bytes(g.token_total_supply));
}

} // verus!
