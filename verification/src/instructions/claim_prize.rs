//! Paying out the round: the holder of the drawn ticket receives everything
//! the pool account holds beyond the principal, and the round's draw is
//! cleared.

use vstd::prelude::*;
use crate::error::HalopotError;
use crate::laws::pool_step;
use crate::states::{Address, PoolState, Ticket};

verus! {

/// What a claim reads and writes: the claimant, the pool, the ticket
/// presented, and the lamport balances of the claimant and the pool.
#[derive(Clone, Copy, Debug, PartialEq, Eq)]
pub struct ClaimPrize {
    pub user: Address,
    pub user_lamports: u64,
    pub pool_state: PoolState,
    pub pool_lamports: u64,
    pub ticket: Ticket,
}

/// Why a claim is refused, if it is: no ticket drawn, another ticket
/// presented, or a claimant who does not hold the presented ticket.
pub open spec fn claim_refusal(pool: PoolState, ticket: Ticket, user: Address) -> Option<HalopotError> {
    match pool.winning_id {
        None => Some(HalopotError::NoWinnerSelected),
        Some(w) => if ticket.id != w {
            Some(HalopotError::WrongTicket)
        } else if user != ticket.authority {
            Some(HalopotError::WrongWinnerAddress)
        } else {
            None
        },
    }
}

/// The prize: what the pool account holds beyond the principal.
pub open spec fn prize(pool_lamports: u64, pool: PoolState) -> int {
    pool_lamports - pool.total_principal
}

/// Whether paying the prize keeps both balances within range.
pub open spec fn claim_fits(c: ClaimPrize) -> bool {
    &&& c.pool_state.total_principal <= c.pool_lamports
    &&& c.user_lamports + prize(c.pool_lamports, c.pool_state) <= u64::MAX
}

/// What a claim does: a refused claim changes nothing and answers why;
/// otherwise the prize moves from the pool account to the claimant, which
/// leaves the pool account holding exactly the principal, and the draw is
/// cleared.
pub open spec fn claim_outcome(pre: ClaimPrize, post: ClaimPrize, r: Result<(), HalopotError>) -> bool {
    match claim_refusal(pre.pool_state, pre.ticket, pre.user) {
        Some(e) => r == Err::<(), HalopotError>(e) && post == pre,
        None => {
            &&& r == Ok::<(), HalopotError>(())
            &&& post == (ClaimPrize {
                user_lamports: (pre.user_lamports + prize(pre.pool_lamports, pre.pool_state)) as u64,
                pool_lamports: pre.pool_state.total_principal,
                pool_state: pre.pool_state.with_winner(None),
                ..pre
            })
        },
    }
}

impl ClaimPrize {
    /// Whether a claim would be accepted.
    pub fn accepts(&self) -> (b: bool)
        ensures
            b == (claim_refusal(self.pool_state, self.ticket, self.user) is None),
    {
        match self.pool_state.winning_id {
            Some(w) => self.ticket.id == w && self.user.same_as(&self.ticket.authority),
            None => false,
        }
    }

    /// Whether paying the prize keeps both balances within range.
    pub fn fits(&self) -> (b: bool)
        ensures
            b == claim_fits(*self),
    {
        self.pool_state.total_principal <= self.pool_lamports
            && self.pool_lamports - self.pool_state.total_principal <= u64::MAX - self.user_lamports
    }

    /// Pays the prize to the holder of the drawn ticket and clears the draw,
    /// as `claim_outcome` says; the lamports only change hands.
    pub fn claim_prize(&mut self) -> (r: Result<(), HalopotError>)
        requires
            claim_refusal(old(self).pool_state, old(self).ticket, old(self).user) is None
                ==> claim_fits(*old(self)),
        ensures
            claim_outcome(*old(self), *final(self), r),
            final(self).pool_lamports + final(self).user_lamports
                == old(self).pool_lamports + old(self).user_lamports,
            pool_step(old(self).pool_state, final(self).pool_state),
            old(self).pool_state.wf() ==> final(self).pool_state.wf(),
    {
        let winning_id = match self.pool_state.winning_id {
            Some(w) => w,
            None => {
                return Err(HalopotError::NoWinnerSelected);
            },
        };
        if self.ticket.id != winning_id {
            return Err(HalopotError::WrongTicket);
        }
        if !self.user.same_as(&self.ticket.authority) {
            return Err(HalopotError::WrongWinnerAddress);
        }

        let total_principal = self.pool_state.total_principal;
        let total_balance = self.pool_lamports;
        let prize_amount = total_balance - total_principal;

        self.pool_lamports = self.pool_lamports - prize_amount;
        self.user_lamports = self.user_lamports + prize_amount;

        self.pool_state.winning_id = None;
        Ok(())
    }
}

} // verus!
