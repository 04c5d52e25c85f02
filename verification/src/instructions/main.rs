//! Setting up the pool.

use vstd::prelude::*;
use crate::error::HalopotError;
use crate::states::{Address, PoolState};

verus! {

/// What initialisation reads and writes: the admin and the new pool.
#[derive(Clone, Copy, Debug, PartialEq, Eq)]
pub struct Initialize {
    pub admin: Address,
    pub pool_state: PoolState,
}

/// The bump seeds found for the new pool account and the ticket mint.
#[derive(Clone, Copy, Debug, PartialEq, Eq)]
pub struct InitializeBumps {
    pub pool_state: u8,
    pub ticket_mint: u8,
}

/// A fresh pool administered by `admin`: first round, no principal, no
/// tickets, nothing drawn.
pub open spec fn initial_pool(admin: Address, bumps: InitializeBumps) -> PoolState {
    PoolState {
        admin,
        round_id: 1,
        total_principal: 0,
        total_tickets: 0,
        bump: bumps.pool_state,
        ticket_mint_bump: bumps.ticket_mint,
        ticket_count: 0,
        winning_id: None,
    }
}

/// What initialisation does: the pool becomes a fresh pool administered by
/// the signer.
pub open spec fn initialize_outcome(pre: Initialize, post: Initialize, bumps: InitializeBumps, r: Result<(), HalopotError>) -> bool {
    &&& r == Ok::<(), HalopotError>(())
    &&& post == (Initialize { admin: pre.admin, pool_state: initial_pool(pre.admin, bumps) })
}

impl Initialize {
    /// Writes a fresh pool administered by the signer, as
    /// `initialize_outcome` says.
    pub fn initialize(&mut self, bumps: &InitializeBumps) -> (r: Result<(), HalopotError>)
        ensures
            initialize_outcome(*old(self), *final(self), *bumps, r),
            final(self).pool_state.wf(),
    {
        self.pool_state = PoolState {
            admin: self.admin,
            round_id: 1,
            total_principal: 0,
            total_tickets: 0,
            bump: bumps.pool_state,
            ticket_mint_bump: bumps.ticket_mint,
            ticket_count: 0,
            winning_id: None,
        };
        Ok(())
    }
}

} // verus!
