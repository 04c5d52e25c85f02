//! The maker flow: record an escrow offer and move the offered tokens into
//! its vault.

use vstd::prelude::*;
use crate::cpi::Cpi;
use crate::error::HalopotError;
use crate::states::{Address, Escrow};

verus! {

/// What the maker flow reads and writes: the maker, the two mints of the
/// offer, the decimals of the offered mint, and the escrow record.
#[derive(Clone, Copy, Debug, PartialEq, Eq)]
pub struct Make {
    pub maker: Address,
    pub mint_a: Address,
    pub mint_a_decimals: u8,
    pub mint_b: Address,
    pub escrow: Escrow,
}

/// The bump seed found for the escrow account.
#[derive(Clone, Copy, Debug, PartialEq, Eq)]
pub struct MakeBumps {
    pub escrow: u8,
}

/// What recording an offer does: the escrow record holds the seed, the
/// amount of the second mint asked for, the maker, the two mints and the
/// escrow's bump; nothing else changes.
pub open spec fn init_escrow_outcome(pre: Make, post: Make, seed: u64, receive: u64, bumps: MakeBumps, r: Result<(), HalopotError>) -> bool {
    &&& r == Ok::<(), HalopotError>(())
    &&& post == (Make {
        escrow: Escrow {
            seeds: seed,
            receive,
            maker: pre.maker,
            mint_a: pre.mint_a,
            mint_b: pre.mint_b,
            bump: bumps.escrow,
        },
        ..pre
    })
}

impl Make {
    /// Records the offer, as `init_escrow_outcome` says.
    pub fn init_escrow(&mut self, seed: u64, receive: u64, bumps: &MakeBumps) -> (r: Result<(), HalopotError>)
        ensures
            init_escrow_outcome(*old(self), *final(self), seed, receive, *bumps, r),
    {
        self.escrow = Escrow {
            seeds: seed,
            receive,
            maker: self.maker,
            mint_a: self.mint_a,
            mint_b: self.mint_b,
            bump: bumps.escrow,
        };
        Ok(())
    }

    /// Asks for the checked transfer of `deposit` tokens of the first mint
    /// from the maker into the vault.
    pub fn deposit(&mut self, deposit: u64) -> (r: Result<Vec<Cpi>, HalopotError>)
        ensures
            *final(self) == *old(self),
            r matches Ok(calls) && calls@ == seq![
                Cpi::TransferChecked { amount: deposit, decimals: old(self).mint_a_decimals },
            ],
    {
        let mut calls: Vec<Cpi> = Vec::new();
        calls.push(Cpi::TransferChecked { amount: deposit, decimals: self.mint_a_decimals });
        Ok(calls)
    }
}

} // verus!
