//! Turning the pool's mSOL back into SOL.

use vstd::prelude::*;
use crate::cpi::Cpi;
use crate::error::HalopotError;
use crate::instructions::stake::admin_call_outcome;
use crate::states::{Address, PoolState};

verus! {

/// What unstaking reads: the signer claiming to be the admin, and the pool.
#[derive(Clone, Copy, Debug, PartialEq, Eq)]
pub struct Unstake {
    pub admin: Address,
    pub pool_state: PoolState,
}

impl Unstake {
    /// Asks Marinade to turn `amount_msol` of the pool's mSOL back into SOL
    /// paid to the pool, signed by the pool. Refused for a signer other than
    /// the admin.
    pub fn unstake(&mut self, amount_msol: u64) -> (r: Result<Vec<Cpi>, HalopotError>)
        ensures
            *final(self) == *old(self),
            admin_call_outcome(
                old(self).admin,
                old(self).pool_state,
                Cpi::MarinadeLiquidUnstake { msol_amount: amount_msol, pool_bump: old(self).pool_state.bump },
                r,
            ),
    {
        if !self.admin.same_as(&self.pool_state.admin) {
            return Err(HalopotError::ConstraintHasOne);
        }
        let mut calls: Vec<Cpi> = Vec::new();
        calls.push(Cpi::MarinadeLiquidUnstake { msol_amount: amount_msol, pool_bump: self.pool_state.bump });
        Ok(calls)
    }
}

} // verus!
