//! Drawing the winning ticket of the round, once the pool has earned
//! yield: more than the principal it holds plus the reserve that keeps the
//! pool account rent-exempt.

use vstd::prelude::*;
use crate::error::HalopotError;
use crate::laws::pool_step;
use crate::states::{Address, PoolState};

verus! {

/// What a draw reads and writes: the signer claiming to be the admin, the
/// pool, the pool account's lamport balance, and the part of that balance
/// the account must keep to stay rent-exempt.
#[derive(Clone, Copy, Debug, PartialEq, Eq)]
pub struct PickWinner {
    pub admin: Address,
    pub pool_state: PoolState,
    pub pool_lamports: u64,
    pub rent_reserve: u64,
}

/// The ticket drawn at `unix_timestamp` among `ticket_count` tickets: the
/// timestamp's bits read as an unsigned number, modulo the ticket count.
pub open spec fn drawn_ticket(unix_timestamp: i64, ticket_count: u64) -> u64 {
    ((unix_timestamp as u64) % ticket_count) as u64
}

/// Why a draw is refused, if it is: a signer other than the pool's admin,
/// or no yield, that is a pool balance that does not exceed its principal
/// plus its rent-exempt reserve.
pub open spec fn pick_winner_refusal(p: PickWinner) -> Option<HalopotError> {
    if p.admin != p.pool_state.admin {
        Some(HalopotError::ConstraintHasOne)
    } else if p.pool_lamports <= p.pool_state.total_principal + p.rent_reserve {
        Some(HalopotError::NoYieldToDistribute)
    } else {
        None
    }
}

/// What a draw at `unix_timestamp` does: a refused draw changes nothing
/// and answers why; otherwise the drawn ticket is recorded as the round's
/// winner and returned.
pub open spec fn pick_winner_outcome(pre: PickWinner, post: PickWinner, unix_timestamp: i64, r: Result<u64, HalopotError>) -> bool {
    match pick_winner_refusal(pre) {
        Some(e) => r == Err::<u64, HalopotError>(e) && post == pre,
        None => {
            let w = drawn_ticket(unix_timestamp, pre.pool_state.ticket_count);
            &&& r == Ok::<u64, HalopotError>(w)
            &&& post == (PickWinner { pool_state: pre.pool_state.with_winner(Some(w)), ..pre })
        },
    }
}

impl PickWinner {
    /// Whether a draw would be accepted.
    pub fn accepts(&self) -> (b: bool)
        ensures
            b == (pick_winner_refusal(*self) is None),
    {
        self.admin.same_as(&self.pool_state.admin) && self.has_yield()
    }

    /// Whether the pool balance exceeds principal plus rent-exempt reserve.
    fn has_yield(&self) -> (b: bool)
        ensures
            b == (self.pool_lamports > self.pool_state.total_principal + self.rent_reserve),
    {
        self.pool_lamports > self.pool_state.total_principal
            && self.pool_lamports - self.pool_state.total_principal > self.rent_reserve
    }

    /// Draws the ticket `unix_timestamp as u64 % ticket_count` as
    /// `pick_winner_outcome` says. The drawn ticket is always one that has
    /// been handed out.
    pub fn pick_winner(&mut self, unix_timestamp: i64) -> (r: Result<u64, HalopotError>)
        requires
            pick_winner_refusal(*old(self)) is None ==> old(self).pool_state.ticket_count > 0,
        ensures
            pick_winner_outcome(*old(self), *final(self), unix_timestamp, r),
            r matches Ok(w) ==> w < old(self).pool_state.ticket_count,
            pool_step(old(self).pool_state, final(self).pool_state),
            old(self).pool_state.wf() ==> final(self).pool_state.wf(),
    {
        if !self.admin.same_as(&self.pool_state.admin) {
            return Err(HalopotError::ConstraintHasOne);
        }
        if !self.has_yield() {
            return Err(HalopotError::NoYieldToDistribute);
        }
        let time_seed = unix_timestamp as u64;
        let random_winner_id = time_seed % self.pool_state.ticket_count;
        self.pool_state.winning_id = Some(random_winner_id);
        assert(self.pool_state == old(self).pool_state.with_winner(Some(random_winner_id)));
        Ok(random_winner_id)
    }
}

} // verus!
