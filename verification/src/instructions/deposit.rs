//! Buying a ticket: exactly one ticket price moves from the user into the
//! pool, the user gets a numbered ticket record and one ticket's worth of
//! ticket tokens, and the pool's principal grows by the deposit.

use vstd::prelude::*;
use crate::cpi::Cpi;
use crate::error::HalopotError;
use crate::laws::pool_step;
use crate::states::{Address, PoolState, Ticket, TICKET_PRICE};

verus! {

/// What a deposit reads and writes: the paying user, the pool, and the
/// freshly created ticket record.
#[derive(Clone, Copy, Debug, PartialEq, Eq)]
pub struct Deposit {
    pub user: Address,
    pub pool_state: PoolState,
    pub ticket: Ticket,
}

/// The pool after an accepted deposit of `amount`.
pub open spec fn pool_after_deposit(pool: PoolState, amount: u64) -> PoolState {
    PoolState {
        ticket_count: (pool.ticket_count + 1) as u64,
        total_principal: (pool.total_principal + amount) as u64,
        total_tickets: (pool.total_tickets + amount) as u64,
        ..pool
    }
}

/// Whether an accepted deposit of `amount` keeps every counter of `pool`
/// within range.
pub open spec fn deposit_fits(pool: PoolState, amount: u64) -> bool {
    &&& pool.ticket_count < u64::MAX
    &&& pool.total_principal + amount <= u64::MAX
    &&& pool.total_tickets + amount <= u64::MAX
}

/// What a deposit of `amount` does: anything but exactly one ticket price
/// is refused and changes nothing; one ticket price records a ticket for
/// the user numbered by the pool's counter, advances the counter, adds the
/// deposit to principal and ticket total, and asks for the transfer into
/// the pool followed by the mint of as many ticket tokens as lamports paid.
pub open spec fn deposit_outcome(
    pre: Deposit,
    post: Deposit,
    amount: u64,
    ticket_bump: u8,
    r: Result<Vec<Cpi>, HalopotError>,
) -> bool {
    if amount != TICKET_PRICE {
        &&& r == Err::<Vec<Cpi>, HalopotError>(HalopotError::IncorrectTicketPrice)
        &&& post == pre
    } else {
        &&& r matches Ok(calls) && calls@ =~= seq![
            Cpi::TransferToPool { lamports: amount },
            Cpi::MintTickets { amount, pool_bump: pre.pool_state.bump },
        ]
        &&& post == (Deposit {
            user: pre.user,
            pool_state: pool_after_deposit(pre.pool_state, amount),
            ticket: Ticket { authority: pre.user, id: pre.pool_state.ticket_count, bump: ticket_bump },
        })
    }
}

impl Deposit {
    /// Whether an accepted deposit of `amount` keeps every counter of the
    /// pool within range.
    pub fn fits(&self, amount: u64) -> (b: bool)
        ensures
            b == deposit_fits(self.pool_state, amount),
    {
        self.pool_state.ticket_count < u64::MAX
            && self.pool_state.total_principal <= u64::MAX - amount
            && self.pool_state.total_tickets <= u64::MAX - amount
    }

    /// Accepts a deposit of exactly `TICKET_PRICE` lamports, as
    /// `deposit_outcome` says.
    pub fn deposit(&mut self, amount: u64, ticket_bump: u8) -> (r: Result<Vec<Cpi>, HalopotError>)
        requires
            amount == TICKET_PRICE ==> deposit_fits(old(self).pool_state, amount),
        ensures
            deposit_outcome(*old(self), *final(self), amount, ticket_bump, r),
            pool_step(old(self).pool_state, final(self).pool_state),
            old(self).pool_state.wf() ==> final(self).pool_state.wf(),
    {
        if amount != TICKET_PRICE {
            return Err(HalopotError::IncorrectTicketPrice);
        }
        self.ticket = Ticket { authority: self.user, id: self.pool_state.ticket_count, bump: ticket_bump };
        self.pool_state.ticket_count = self.pool_state.ticket_count + 1;

        let mut calls: Vec<Cpi> = Vec::new();
        calls.push(Cpi::TransferToPool { lamports: amount });
        calls.push(Cpi::MintTickets { amount, pool_bump: self.pool_state.bump });

        self.pool_state.total_principal = self.pool_state.total_principal + amount;
        self.pool_state.total_tickets = self.pool_state.total_tickets + amount;
        Ok(calls)
    }
}

} // verus!
