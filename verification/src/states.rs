//! On-chain account data of the pool: the pool itself, the tickets it
//! hands out, and the escrow record of the maker flow.

use vstd::prelude::*;

verus! {

broadcast use vstd::array::group_array_axioms;

/// A 32-byte account address.
#[derive(Clone, Copy, Debug, PartialEq, Eq)]
pub struct Address {
    pub bytes: [u8; 32],
}

impl Address {
    /// Byte-wise comparison of two addresses.
    pub fn same_as(&self, other: &Address) -> (r: bool)
        ensures
            r == (*self == *other),
    {
        let mut i: usize = 0;
        while i < 32
            invariant
                i <= 32,
                forall|j: int| 0 <= j < i ==> self.bytes[j] == other.bytes[j],
            decreases 32 - i,
        {
            if self.bytes[i] != other.bytes[i] {
                return false;
            }
            i = i + 1;
        }
        assert(self.bytes =~= other.bytes);
        true
    }
}

/// The price of one ticket, in lamports (one SOL).
pub const TICKET_PRICE: u64 = 1_000_000_000;

/// The pool account: who administers it, how much principal it holds on
/// behalf of ticket holders, how many tickets it has handed out, and the
/// ticket drawn in the current round, if any.
#[derive(Clone, Copy, Debug, PartialEq, Eq)]
pub struct PoolState {
    pub admin: Address,
    pub round_id: u64,
    /// Lamports deposited by ticket holders and not yet withdrawn.
    pub total_principal: u64,
    /// Ticket tokens minted and not burnt, as the pool records them (in the
    /// mint's smallest unit).
    pub total_tickets: u64,
    pub bump: u8,
    pub ticket_mint_bump: u8,
    /// Number of ticket records created so far; the next ticket gets this id.
    pub ticket_count: u64,
    pub winning_id: Option<u64>,
}

impl PoolState {
    /// What every pool state reachable from `initialize` satisfies: the
    /// recorded principal equals the recorded ticket total and is at most
    /// one ticket price per ticket handed out, and a drawn ticket is one that
    /// has been handed out.
    pub open spec fn wf(&self) -> bool {
        &&& self.total_principal == self.total_tickets
        &&& self.total_principal <= self.ticket_count * TICKET_PRICE
        &&& (self.winning_id matches Some(w) ==> w < self.ticket_count)
    }

    /// The same pool with `winning_id` replaced.
    pub open spec fn with_winner(self, winning_id: Option<u64>) -> PoolState {
        PoolState { winning_id, ..self }
    }
}

/// A ticket record: who holds it and its sequence number.
#[derive(Clone, Copy, Debug, PartialEq, Eq)]
pub struct Ticket {
    pub authority: Address,
    pub id: u64,
    pub bump: u8,
}

/// The record kept by the maker flow.
#[derive(Clone, Copy, Debug, PartialEq, Eq)]
pub struct Escrow {
    pub seeds: u64,
    pub receive: u64,
    pub maker: Address,
    pub mint_a: Address,
    pub mint_b: Address,
    pub bump: u8,
}

} // verus!
