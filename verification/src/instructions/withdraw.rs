//! Leaving the pool: the user's ticket tokens are burnt and the same number
//! of lamports moves from the pool account back to the user.

use vstd::prelude::*;
use crate::cpi::Cpi;
use crate::error::HalopotError;
use crate::laws::pool_step;
use crate::states::{Address, PoolState};

verus! {

/// What a withdrawal reads and writes: the user and the pool, with the
/// lamport balances of both accounts.
#[derive(Clone, Copy, Debug, PartialEq, Eq)]
pub struct Withdraw {
    pub user: Address,
    pub user_lamports: u64,
    pub pool_state: PoolState,
    pub pool_lamports: u64,
}

/// The pool after a withdrawal of `amount`.
pub open spec fn pool_after_withdraw(pool: PoolState, amount: u64) -> PoolState {
    PoolState {
        total_principal: (pool.total_principal - amount) as u64,
        total_tickets: (pool.total_tickets - amount) as u64,
        ..pool
    }
}

/// Whether a withdrawal of `amount` keeps both balances and both pool
/// counters within range.
pub open spec fn withdraw_fits(w: Withdraw, amount: u64) -> bool {
    &&& amount <= w.pool_lamports
    &&& w.user_lamports + amount <= u64::MAX
    &&& amount <= w.pool_state.total_principal
    &&& amount <= w.pool_state.total_tickets
}

/// What a withdrawal of `amount` does: asks for the burn of `amount` of
/// the user's ticket tokens, moves `amount` lamports from the pool account
/// to the user, and takes `amount` off principal and ticket total.
pub open spec fn withdraw_outcome(pre: Withdraw, post: Withdraw, amount: u64, r: Result<Vec<Cpi>, HalopotError>) -> bool {
    &&& r matches Ok(calls) && calls@ =~= seq![Cpi::BurnTickets { amount }]
    &&& post == (Withdraw {
        user: pre.user,
        user_lamports: (pre.user_lamports + amount) as u64,
        pool_state: pool_after_withdraw(pre.pool_state, amount),
        pool_lamports: (pre.pool_lamports - amount) as u64,
    })
}

impl Withdraw {
    /// Whether a withdrawal of `amount` keeps both balances and both pool
    /// counters within range.
    pub fn fits(&self, amount: u64) -> (b: bool)
        ensures
            b == withdraw_fits(*self, amount),
    {
        amount <= self.pool_lamports
            && self.user_lamports <= u64::MAX - amount
            && amount <= self.pool_state.total_principal
            && amount <= self.pool_state.total_tickets
    }

    /// Pays `amount_sol` of principal back for as many ticket tokens, as
    /// `withdraw_outcome` says; the lamports only change hands.
    pub fn withdraw(&mut self, amount_sol: u64) -> (r: Result<Vec<Cpi>, HalopotError>)
        requires
            withdraw_fits(*old(self), amount_sol),
        ensures
            withdraw_outcome(*old(self), *final(self), amount_sol, r),
            final(self).pool_lamports + final(self).user_lamports
                == old(self).pool_lamports + old(self).user_lamports,
            pool_step(old(self).pool_state, final(self).pool_state),
            old(self).pool_state.wf() ==> final(self).pool_state.wf(),
    {
        let mut calls: Vec<Cpi> = Vec::new();
        calls.push(Cpi::BurnTickets { amount: amount_sol });

        self.pool_lamports = self.pool_lamports - amount_sol;
        self.user_lamports = self.user_lamports + amount_sol;

        self.pool_state.total_principal = self.pool_state.total_principal - amount_sol;
        self.pool_state.total_tickets = self.pool_state.total_tickets - amount_sol;
        assert(self.pool_state == pool_after_withdraw(old(self).pool_state, amount_sol));
        Ok(calls)
    }
}

} // verus!
