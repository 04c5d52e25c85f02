//! What holds of the pool across instructions.

use vstd::prelude::*;
use crate::cpi::Cpi;
use crate::error::HalopotError;
use crate::instructions::claim_prize::{claim_outcome, claim_refusal, ClaimPrize};
use crate::instructions::deposit::{deposit_fits, deposit_outcome, pool_after_deposit, Deposit};
use crate::instructions::main::{initial_pool, InitializeBumps};
use crate::instructions::pick_winner::{pick_winner_outcome, pick_winner_refusal, PickWinner};
use crate::instructions::withdraw::{pool_after_withdraw, withdraw_outcome, Withdraw};
use crate::states::{Address, PoolState, Ticket, TICKET_PRICE};

verus! {

/// The ways one instruction can change the pool record: not at all, by an
/// accepted deposit, by a withdrawal of principal, by a draw among the
/// tickets handed out, or by paying out a drawn ticket. Every instruction
/// that changes the pool states that its change is one of these.
pub open spec fn pool_step(pre: PoolState, post: PoolState) -> bool {
    ||| post == pre
    ||| (deposit_fits(pre, TICKET_PRICE) && post == pool_after_deposit(pre, TICKET_PRICE))
    ||| exists|amount: u64|
        amount <= pre.total_principal && amount <= pre.total_tickets
            && post == #[trigger] pool_after_withdraw(pre, amount)
    ||| exists|w: u64| w < pre.ticket_count && post == #[trigger] pre.with_winner(Some(w))
    ||| (pre.winning_id is Some && post == pre.with_winner(None))
}

/// Step `i` of `run` is one instruction's change of the pool.
pub open spec fn steps_at(run: Seq<PoolState>, i: int) -> bool {
    pool_step(run[i], run[i + 1])
}

/// A sequence of pool records, each obtained from the one before by one
/// instruction.
pub open spec fn is_run(run: Seq<PoolState>) -> bool {
    forall|i: int| 0 <= i < run.len() - 1 ==> #[trigger] steps_at(run, i)
}

/// What one step of a run can do to the pool, case by case: a withdrawal
/// keeps every field but principal and ticket total, so a step either
/// leaves the drawn ticket as it was, draws one, or clears one.
proof fn lemma_step_shape(pre: PoolState, post: PoolState)
    requires
        pool_step(pre, post),
    ensures
        pre.wf() ==> post.wf(),
        pre.ticket_count <= post.ticket_count,
        post.winning_id == pre.winning_id
            || (exists|w: u64| post == #[trigger] pre.with_winner(Some(w)))
            || (pre.winning_id is Some && post == pre.with_winner(None)),
{
    if exists|amount: u64|
        amount <= pre.total_principal && amount <= pre.total_tickets
            && post == #[trigger] pool_after_withdraw(pre, amount) {
        let amount = choose|amount: u64|
            amount <= pre.total_principal && amount <= pre.total_tickets
                && post == #[trigger] pool_after_withdraw(pre, amount);
        assert(post == pool_after_withdraw(pre, amount));
    }
    if exists|w: u64| w < pre.ticket_count && post == #[trigger] pre.with_winner(Some(w)) {
        let w = choose|w: u64| w < pre.ticket_count && post == #[trigger] pre.with_winner(Some(w));
        assert(post == pre.with_winner(Some(w)));
    }
}

/// The ticket counter never goes down along a run: tickets are numbered in
/// the order they are handed out.
pub proof fn lemma_run_ticket_count_never_decreases(run: Seq<PoolState>, i: int, j: int)
    requires
        is_run(run),
        0 <= i <= j < run.len(),
    ensures
        run[i].ticket_count <= run[j].ticket_count,
    decreases j - i,
{
    if i < j {
        lemma_run_ticket_count_never_decreases(run, i, j - 1);
        assert(steps_at(run, j - 1));
        lemma_step_shape(run[j - 1], run[j]);
    }
}

/// Every pool record reachable from `initialize` is well formed: its
/// recorded principal equals its recorded ticket total, and a drawn ticket is one that has
/// been handed out.
pub proof fn lemma_run_from_initialize_is_wf(admin: Address, bumps: InitializeBumps, run: Seq<PoolState>, k: int)
    requires
        is_run(run),
        run.len() > 0,
        run[0] == initial_pool(admin, bumps),
        0 <= k < run.len(),
    ensures
        run[k].wf(),
    decreases k,
{
    if k > 0 {
        lemma_run_from_initialize_is_wf(admin, bumps, run, k - 1);
        assert(steps_at(run, k - 1));
        lemma_step_shape(run[k - 1], run[k]);
    }
}

/// A ticket number is handed out once: the number a deposit gives out at
/// step `i` of a run is below the counter at every later point of the run,
/// where later deposits take their numbers from.
pub proof fn lemma_run_hands_out_each_number_once(run: Seq<PoolState>, i: int, j: int)
    requires
        is_run(run),
        0 <= i < j < run.len(),
        deposit_fits(run[i], TICKET_PRICE),
        run[i + 1] == pool_after_deposit(run[i], TICKET_PRICE),
    ensures
        run[i].ticket_count < run[j].ticket_count,
{
    lemma_run_ticket_count_never_decreases(run, i + 1, j);
}

/// Withdrawing a ticket's price right after buying the ticket restores the
/// pool's principal and ticket total (only the ticket counter stays
/// advanced), burns exactly the ticket tokens minted, and pays back exactly
/// the lamports transferred in.
pub proof fn lemma_withdraw_undoes_deposit(
    d0: Deposit,
    d1: Deposit,
    ticket_bump: u8,
    r1: Result<Vec<Cpi>, HalopotError>,
    w0: Withdraw,
    w1: Withdraw,
    r2: Result<Vec<Cpi>, HalopotError>,
)
    requires
        deposit_fits(d0.pool_state, TICKET_PRICE),
        deposit_outcome(d0, d1, TICKET_PRICE, ticket_bump, r1),
        w0.pool_state == d1.pool_state,
        withdraw_outcome(w0, w1, TICKET_PRICE, r2),
    ensures
        w1.pool_state == (PoolState { ticket_count: (d0.pool_state.ticket_count + 1) as u64, ..d0.pool_state }),
        r1 matches Ok(c1) && r2 matches Ok(c2)
            && c1@[0] == (Cpi::TransferToPool { lamports: TICKET_PRICE })
            && c1@[1] == (Cpi::MintTickets { amount: TICKET_PRICE, pool_bump: d0.pool_state.bump })
            && c2@[0] == (Cpi::BurnTickets { amount: TICKET_PRICE }),
        w0.user_lamports + TICKET_PRICE <= u64::MAX ==> w1.user_lamports == w0.user_lamports + TICKET_PRICE,
{
}

/// A drawn ticket is paid out once: after an accepted claim, any further
/// claim, by anyone with any ticket, is refused for want of a drawn ticket.
pub proof fn lemma_prize_paid_once(c0: ClaimPrize, c1: ClaimPrize, r: Result<(), HalopotError>, ticket: Ticket, user: Address)
    requires
        claim_outcome(c0, c1, r),
        r is Ok,
    ensures
        claim_refusal(c1.pool_state, ticket, user) == Some(HalopotError::NoWinnerSelected),
{
}

/// A draw depends on nothing but the signer being the admin, the ticket
/// count, the principal, the pool balance, the rent-exempt reserve and the
/// time: two draws that agree on these give the same answer, and two
/// accepted draws record the same winner.
pub proof fn lemma_draw_depends_only_on_its_inputs(
    a0: PickWinner,
    a1: PickWinner,
    ra: Result<u64, HalopotError>,
    b0: PickWinner,
    b1: PickWinner,
    rb: Result<u64, HalopotError>,
    unix_timestamp: i64,
)
    requires
        pick_winner_outcome(a0, a1, unix_timestamp, ra),
        pick_winner_outcome(b0, b1, unix_timestamp, rb),
        (a0.admin == a0.pool_state.admin) == (b0.admin == b0.pool_state.admin),
        a0.pool_state.ticket_count == b0.pool_state.ticket_count,
        a0.pool_state.total_principal == b0.pool_state.total_principal,
        a0.pool_lamports == b0.pool_lamports,
        a0.rent_reserve == b0.rent_reserve,
    ensures
        ra == rb,
        ra is Ok ==> a1.pool_state.winning_id == b1.pool_state.winning_id,
        ra is Err ==> a1 == a0 && b1 == b0,
{
}

/// Step `i` of `run` draws a ticket.
pub open spec fn draws_at(run: Seq<PoolState>, i: int) -> bool {
    exists|w: u64| run[i + 1] == #[trigger] run[i].with_winner(Some(w))
}

/// Once cleared, the draw stays cleared until the next draw: deposits,
/// withdrawals, refused instructions and further claims leave no drawn
/// ticket behind.
pub proof fn lemma_cleared_draw_stays_cleared(run: Seq<PoolState>, i: int, j: int)
    requires
        is_run(run),
        0 <= i <= j < run.len(),
        run[i].winning_id is None,
        forall|k: int| i <= k < j ==> !#[trigger] draws_at(run, k),
    ensures
        run[j].winning_id is None,
    decreases j - i,
{
    if i < j {
        lemma_cleared_draw_stays_cleared(run, i, j - 1);
        assert(steps_at(run, j - 1));
        assert(!draws_at(run, j - 1));
        lemma_step_shape(run[j - 1], run[j]);
    }
}

/// The drawn ticket can be claimed: after an accepted draw, the holder of
/// the ticket with the returned number is not refused, whoever that holder
/// is.
pub proof fn lemma_drawn_ticket_can_claim(
    p0: PickWinner,
    p1: PickWinner,
    unix_timestamp: i64,
    r: Result<u64, HalopotError>,
    ticket: Ticket,
)
    requires
        pick_winner_outcome(p0, p1, unix_timestamp, r),
        r matches Ok(w) && ticket.id == w,
    ensures
        claim_refusal(p1.pool_state, ticket, ticket.authority) is None,
{
}

/// Step `i` of `run` pays out the drawn ticket.
pub open spec fn claims_at(run: Seq<PoolState>, i: int) -> bool {
    run[i].winning_id is Some && run[i + 1] == run[i].with_winner(None)
}

/// A drawn ticket stays drawn, and claimable by its holder, until it is
/// paid out or another ticket is drawn: deposits, withdrawals and refused
/// instructions in between change neither.
pub proof fn lemma_drawn_ticket_stays_claimable(run: Seq<PoolState>, i: int, j: int, ticket: Ticket)
    requires
        is_run(run),
        0 <= i <= j < run.len(),
        run[i].winning_id == Some(ticket.id),
        forall|k: int| i <= k < j ==> !#[trigger] draws_at(run, k) && !claims_at(run, k),
    ensures
        run[j].winning_id == Some(ticket.id),
        claim_refusal(run[j], ticket, ticket.authority) is None,
    decreases j - i,
{
    if i < j {
        lemma_drawn_ticket_stays_claimable(run, i, j - 1, ticket);
        assert(steps_at(run, j - 1));
        assert(!draws_at(run, j - 1) && !claims_at(run, j - 1));
        lemma_step_shape(run[j - 1], run[j]);
    }
}

} // verus!
