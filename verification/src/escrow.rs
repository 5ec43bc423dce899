//! The token-escrow companion program's state and rules: an escrow record
//! offering `amount` of one mint against `receive` of another, its serialized
//! layout, its instruction set, and the mint-consistency and balance rules a
//! withdraw or close must satisfy. Account loading, address derivation and
//! the transfers themselves are the host's business.

use vstd::prelude::*;
use vstd::bytes::{spec_u64_from_le_bytes, spec_u64_to_le_bytes};
use crate::codec::{push_pubkey, push_u64_le, read_pubkey, read_u64_le};
use crate::helpers::{pubkey_eq, require, Pubkey};

verus! {

/// Failures the escrow rules raise.
#[derive(Clone, Copy, Debug, PartialEq, Eq, Structural)]
pub enum EscrowErrors {
    /// Account data could not be borrowed mutably.
    BorrowInvalid,
    /// A mint does not match the escrow record.
    InvalidMint,
    /// The escrow account is not the one derived from the record.
    InvalidEscrow,
    /// A token balance is too small for the exchange.
    InvalidBalance,
}

impl EscrowErrors {
    /// A human-readable description of the error.
    pub fn to_str(&self) -> (r: &'static str)
    {
        match self {
            EscrowErrors::BorrowInvalid => "Load Error: Couldn't mut borrow account data",
            EscrowErrors::InvalidMint => "Validation Error: Invalid Mint",
            EscrowErrors::InvalidEscrow => "Validation Error: Invalid escrow provided",
            EscrowErrors::InvalidBalance => "Validation Error: Invalid Token amount",
        }
    }
}

/// The arguments of an escrow creation request.
#[derive(Clone, Copy, Debug, PartialEq, Eq, Structural)]
pub struct CreateEscrow {
    /// The amount of the counter-mint the creator wants in return.
    pub recv_amount: u64,
    /// The amount of the offered mint the creator deposits.
    pub send_amount: u64,
}

/// One escrow record: who offers, what is offered, and what is expected in
/// return.
#[derive(Clone, Copy, Debug)]
pub struct EscrowPda {
    /// The identity that created the escrow.
    pub creator: Pubkey,
    /// The amount of `mint_a` deposited.
    pub amount: u64,
    /// The mint offered by the creator.
    pub mint_a: Pubkey,
    /// The mint the creator expects in return.
    pub mint_b: Pubkey,
    /// The amount of `mint_b` expected in return.
    pub receive: u64,
}

/// The escrow program's instruction set, selected by a leading tag byte.
#[derive(Clone, Copy, Debug, PartialEq, Eq, Structural)]
pub enum EscrowInstructions {
    /// Open an escrow with the given terms.
    CreateEscrow(CreateEscrow),
    /// Take the offered tokens against the expected payment.
    Withdraw,
    /// Return the offered tokens to the creator and close the escrow.
    Close,
}

impl EscrowInstructions {
    /// Parses an instruction: tag byte 0 followed by the two 8-byte amounts
    /// opens an escrow; a lone 1 withdraws; a lone 2 closes. Anything else,
    /// including trailing bytes, is rejected.
    pub fn from_bytes(bytes: &[u8]) -> (r: Option<EscrowInstructions>)
        ensures
            r matches Some(ix) ==> {
                ||| (ix matches EscrowInstructions::CreateEscrow(c) && bytes@.len() == 17
                    && bytes@[0] == 0 && c.recv_amount == spec_u64_from_le_bytes(
                    bytes@.subrange(1, 9),
                ) && c.send_amount == spec_u64_from_le_bytes(bytes@.subrange(9, 17)))
                ||| (ix == EscrowInstructions::Withdraw && bytes@ =~= seq![1u8])
                ||| (ix == EscrowInstructions::Close && bytes@ =~= seq![2u8])
            },
            r is Some <==> (bytes@.len() == 17 && bytes@[0] == 0) || (bytes@.len() == 1 && (
            bytes@[0] == 1 || bytes@[0] == 2)),
    {
        if bytes.len() == 0 {
            return None;
        }
        if bytes[0] == 0 && bytes.len() == 17 {
            return Some(
                EscrowInstructions::CreateEscrow(
                    CreateEscrow {
                        recv_amount: read_u64_le(bytes, 1),
                        send_amount: read_u64_le(bytes, 9),
                    },
                ),
            );
        }
        if bytes.len() == 1 && bytes[0] == 1 {
            proof {
                assert(bytes@ =~= seq![1u8]);
            }
            return Some(EscrowInstructions::Withdraw);
        }
        if bytes.len() == 1 && bytes[0] == 2 {
            proof {
                assert(bytes@ =~= seq![2u8]);
            }
            return Some(EscrowInstructions::Close);
        }
        None
    }
}

impl EscrowPda {
    /// Serialized size of the record in bytes.
    pub const ESCROW_SIZE: usize = 112;

    /// Seed prefix of the record's derived address.
    pub const ESCROW_PREFIX: &'static str = "escrow";

    /// Fills the record with an escrow's terms.
    pub fn init(
        &mut self,
        creator: &Pubkey,
        mint_a: &Pubkey,
        mint_b: &Pubkey,
        amount: u64,
        receive: u64,
    )
        ensures
            final(self).creator == *creator,
            final(self).mint_a == *mint_a,
            final(self).mint_b == *mint_b,
            final(self).amount == amount,
            final(self).receive == receive,
    {
        self.creator = *creator;
        self.amount = amount;
        self.mint_a = *mint_a;
        self.mint_b = *mint_b;
        self.receive = receive;
    }

    /// Parses the 112-byte serialized layout: creator, amount, the two
    /// mints, and the expected return, in declaration order. Fails closed on
    /// any other length.
    pub fn from_bytes(bytes: &[u8]) -> (r: Option<EscrowPda>)
        ensures
            r is Some <==> bytes@.len() == 112,
            r matches Some(e) ==> {
                &&& e.creator@ == bytes@.subrange(0, 32)
                &&& e.amount == spec_u64_from_le_bytes(bytes@.subrange(32, 40))
                &&& e.mint_a@ == bytes@.subrange(40, 72)
                &&& e.mint_b@ == bytes@.subrange(72, 104)
                &&& e.receive == spec_u64_from_le_bytes(bytes@.subrange(104, 112))
            },
    {
        if bytes.len() != 112 {
            return None;
        }
        Some(
            EscrowPda {
                creator: read_pubkey(bytes, 0),
                amount: read_u64_le(bytes, 32),
                mint_a: read_pubkey(bytes, 40),
                mint_b: read_pubkey(bytes, 72),
                receive: read_u64_le(bytes, 104),
            },
        )
    }

    /// The 112-byte serialized layout of this record.
    pub open spec fn spec_to_bytes(&self) -> Seq<u8> {
        self.creator@ + spec_u64_to_le_bytes(self.amount) + self.mint_a@ + self.mint_b@
            + spec_u64_to_le_bytes(self.receive)
    }

    /// Serializes the record into its 112-byte layout.
    pub fn to_bytes(&self) -> (out: Vec<u8>)
        ensures
            out@ == self.spec_to_bytes(),
            out@.len() == 112,
    {
        let mut out: Vec<u8> = Vec::new();
        push_pubkey(&mut out, &self.creator);
        push_u64_le(&mut out, self.amount);
        push_pubkey(&mut out, &self.mint_a);
        push_pubkey(&mut out, &self.mint_b);
        push_u64_le(&mut out, self.receive);
        proof {
            vstd::bytes::lemma_auto_spec_u64_to_from_le_bytes();
            assert(out@ =~= self.spec_to_bytes());
        }
        out
    }
}

/// Every mint named by a withdraw must match the escrow record, and the
/// taker must hold at least the expected payment: the rules a withdraw is
/// gated on, over the record and the values read from the accounts.
pub fn validate_withdraw(
    escrow: &EscrowPda,
    taker_a_mint: &Pubkey,
    taker_b_mint: &Pubkey,
    mint_a_key: &Pubkey,
    mint_b_key: &Pubkey,
    taker_a_amount: u64,
) -> (r: Result<(), EscrowErrors>)
    ensures
        r is Ok <==> (taker_a_mint@ == escrow.mint_a@ && mint_a_key@ == escrow.mint_a@
            && mint_b_key@ == escrow.mint_b@ && taker_b_mint@ == escrow.mint_b@ && taker_a_amount
            >= escrow.receive),
        r == Err::<(), EscrowErrors>(EscrowErrors::InvalidMint) <==> !(taker_a_mint@
            == escrow.mint_a@ && mint_a_key@ == escrow.mint_a@ && mint_b_key@ == escrow.mint_b@
            && taker_b_mint@ == escrow.mint_b@),
        r == Err::<(), EscrowErrors>(EscrowErrors::InvalidBalance) <==> (taker_a_mint@
            == escrow.mint_a@ && mint_a_key@ == escrow.mint_a@ && mint_b_key@ == escrow.mint_b@
            && taker_b_mint@ == escrow.mint_b@ && taker_a_amount < escrow.receive),
{
    require(pubkey_eq(taker_a_mint, &escrow.mint_a), EscrowErrors::InvalidMint)?;
    require(pubkey_eq(mint_a_key, &escrow.mint_a), EscrowErrors::InvalidMint)?;
    require(pubkey_eq(mint_b_key, &escrow.mint_b), EscrowErrors::InvalidMint)?;
    require(pubkey_eq(taker_b_mint, &escrow.mint_b), EscrowErrors::InvalidMint)?;
    require(taker_a_amount >= escrow.receive, EscrowErrors::InvalidBalance)?;
    Ok(())
}

/// Both token accounts a close touches must carry the escrowed mint: the
/// rule a close is gated on, over the record and the values read from the
/// accounts.
pub fn validate_close(
    escrow: &EscrowPda,
    creator_ata_mint: &Pubkey,
    vault_mint: &Pubkey,
) -> (r: Result<(), EscrowErrors>)
    ensures
        r is Ok <==> (creator_ata_mint@ == escrow.mint_a@ && vault_mint@ == escrow.mint_a@),
        r is Err ==> r == Err::<(), EscrowErrors>(EscrowErrors::InvalidMint),
{
    require(pubkey_eq(creator_ata_mint, &escrow.mint_a), EscrowErrors::InvalidMint)?;
    require(pubkey_eq(vault_mint, &escrow.mint_a), EscrowErrors::InvalidMint)?;
    Ok(())
}

} // verus!
