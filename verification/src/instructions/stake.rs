//! Putting pool SOL to work with Marinade, and taking it back.

use vstd::prelude::*;
use crate::cpi::Cpi;
use crate::error::HalopotError;
use crate::states::{Address, PoolState};

verus! {

/// What staking reads: the signer claiming to be the admin, and the pool.
#[derive(Clone, Copy, Debug, PartialEq, Eq)]
pub struct Staking {
    pub admin: Address,
    pub pool_state: PoolState,
}

/// The answer to an admin-only request for `call`: refused unless `admin`
/// is the pool's admin, otherwise the one call, signed by the pool.
pub open spec fn admin_call_outcome(admin: Address, pool: PoolState, call: Cpi, r: Result<Vec<Cpi>, HalopotError>) -> bool {
    if admin != pool.admin {
        r == Err::<Vec<Cpi>, HalopotError>(HalopotError::ConstraintHasOne)
    } else {
        r matches Ok(calls) && calls@ =~= seq![call]
    }
}

impl Staking {
    /// Asks Marinade to take `amount_sol` lamports of pool SOL for mSOL,
    /// signed by the pool. Refused for a signer other than the admin.
    pub fn stake(&mut self, amount_sol: u64) -> (r: Result<Vec<Cpi>, HalopotError>)
        ensures
            *final(self) == *old(self),
            admin_call_outcome(
                old(self).admin,
                old(self).pool_state,
                Cpi::MarinadeDeposit { lamports: amount_sol, pool_bump: old(self).pool_state.bump },
                r,
            ),
    {
        if !self.admin.same_as(&self.pool_state.admin) {
            return Err(HalopotError::ConstraintHasOne);
        }
        let mut calls: Vec<Cpi> = Vec::new();
        calls.push(Cpi::MarinadeDeposit { lamports: amount_sol, pool_bump: self.pool_state.bump });
        Ok(calls)
    }

    /// Asks Marinade to turn `amount_msol` of the pool's mSOL back into SOL
    /// paid to the pool, signed by the pool. Refused for a signer other than
    /// the admin.
    pub fn unstake(&mut self, amount_msol: u64) -> (r: Result<Vec<Cpi>, HalopotError>)
        ensures
            *final(self) == *old(self),
            admin_call_outcome(
                old(self).admin,
                old(self).pool_state,
                Cpi::MarinadeLiquidUnstake { msol_amount: amount_msol, pool_bump: old(self).pool_state.bump },
                r,
            ),
    {
        if !self.admin.same_as(&self.pool_state.admin) {
            return Err(HalopotError::ConstraintHasOne);
        }
        let mut calls: Vec<Cpi> = Vec::new();
        calls.push(Cpi::MarinadeLiquidUnstake { msol_amount: amount_msol, pool_bump: self.pool_state.bump });
        Ok(calls)
    }
}

} // verus!
