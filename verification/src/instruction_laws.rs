//! What each instruction does, stated directly over its inputs and results.
//! Each law takes an instruction's outcome as its instructions state it and
//! spells out, in plain arithmetic on the fields, what that outcome must be.

use vstd::prelude::*;
use crate::cpi::Cpi;
use crate::error::HalopotError;
use crate::instructions::claim_prize::{claim_outcome, ClaimPrize};
use crate::instructions::deposit::{deposit_outcome, Deposit};
use crate::instructions::main::{initialize_outcome, Initialize, InitializeBumps};
use crate::instructions::make::{init_escrow_outcome, Make, MakeBumps};
use crate::instructions::pick_winner::{pick_winner_outcome, PickWinner};
use crate::instructions::stake::admin_call_outcome;
use crate::instructions::withdraw::{withdraw_outcome, Withdraw};
use crate::states::{Address, PoolState};

verus! {

/// An accepted draw (admin signing, balance above principal plus reserve,
/// tickets handed out) answers the timestamp read as an unsigned number
/// modulo the ticket count, records exactly that ticket as the winner, and
/// changes nothing else.
pub proof fn lemma_draw_is_timestamp_modulo_ticket_count(
    p0: PickWinner,
    p1: PickWinner,
    unix_timestamp: i64,
    r: Result<u64, HalopotError>,
)
    requires
        pick_winner_outcome(p0, p1, unix_timestamp, r),
        p0.admin == p0.pool_state.admin,
        p0.pool_lamports > p0.pool_state.total_principal + p0.rent_reserve,
        p0.pool_state.ticket_count > 0,
    ensures
        r == Ok::<u64, HalopotError>((unix_timestamp as u64) % p0.pool_state.ticket_count),
        p1.pool_state == (PoolState {
            winning_id: Some((unix_timestamp as u64) % p0.pool_state.ticket_count),
            ..p0.pool_state
        }),
        p1.admin == p0.admin,
        p1.pool_lamports == p0.pool_lamports,
        p1.rent_reserve == p0.rent_reserve,
{
}

/// The drawn ticket depends on the timestamp and the ticket count alone:
/// two accepted draws at the same time among as many tickets draw the same
/// ticket, whatever the principal, balance, reserve or admin.
pub proof fn lemma_draw_ignores_principal_and_balance(
    a0: PickWinner,
    a1: PickWinner,
    ra: Result<u64, HalopotError>,
    b0: PickWinner,
    b1: PickWinner,
    rb: Result<u64, HalopotError>,
    unix_timestamp: i64,
)
    requires
        pick_winner_outcome(a0, a1, unix_timestamp, ra),
        pick_winner_outcome(b0, b1, unix_timestamp, rb),
        ra is Ok,
        rb is Ok,
        a0.pool_state.ticket_count == b0.pool_state.ticket_count,
        a0.pool_state.ticket_count > 0,
    ensures
        ra == rb,
        a1.pool_state.winning_id == b1.pool_state.winning_id,
{
}

/// A draw by anyone but the admin is refused as such, and one without yield
/// (balance at most principal plus reserve) is refused for want of yield;
/// neither changes anything.
pub proof fn lemma_draw_refusals(p0: PickWinner, p1: PickWinner, unix_timestamp: i64, r: Result<u64, HalopotError>)
    requires
        pick_winner_outcome(p0, p1, unix_timestamp, r),
    ensures
        p0.admin != p0.pool_state.admin ==> r == Err::<u64, HalopotError>(HalopotError::ConstraintHasOne) && p1 == p0,
        p0.admin == p0.pool_state.admin && p0.pool_lamports <= p0.pool_state.total_principal + p0.rent_reserve
            ==> r == Err::<u64, HalopotError>(HalopotError::NoYieldToDistribute) && p1 == p0,
{
}

/// An accepted claim pays the claimant exactly what the pool account holds
/// beyond the principal, leaves the pool account holding exactly the
/// principal, clears the draw, and changes nothing else.
pub proof fn lemma_claim_pays_the_whole_yield(c0: ClaimPrize, c1: ClaimPrize, r: Result<(), HalopotError>)
    requires
        claim_outcome(c0, c1, r),
        c0.pool_state.winning_id == Some(c0.ticket.id),
        c0.user == c0.ticket.authority,
        c0.pool_state.total_principal <= c0.pool_lamports,
        c0.user_lamports + (c0.pool_lamports - c0.pool_state.total_principal) <= u64::MAX,
    ensures
        r == Ok::<(), HalopotError>(()),
        c1.user_lamports == c0.user_lamports + (c0.pool_lamports - c0.pool_state.total_principal),
        c1.pool_lamports == c0.pool_state.total_principal,
        c1.pool_state == (PoolState { winning_id: None, ..c0.pool_state }),
        c1.user == c0.user,
        c1.ticket == c0.ticket,
{
}

/// A claim with nothing drawn, with another ticket than the drawn one, or by
/// someone not holding the presented ticket is refused as such and changes
/// nothing.
pub proof fn lemma_claim_refusals(c0: ClaimPrize, c1: ClaimPrize, r: Result<(), HalopotError>)
    requires
        claim_outcome(c0, c1, r),
    ensures
        c0.pool_state.winning_id is None
            ==> r == Err::<(), HalopotError>(HalopotError::NoWinnerSelected) && c1 == c0,
        (c0.pool_state.winning_id matches Some(w) && w != c0.ticket.id)
            ==> r == Err::<(), HalopotError>(HalopotError::WrongTicket) && c1 == c0,
        (c0.pool_state.winning_id == Some(c0.ticket.id) && c0.user != c0.ticket.authority)
            ==> r == Err::<(), HalopotError>(HalopotError::WrongWinnerAddress) && c1 == c0,
{
}

/// An accepted deposit of one ticket price numbers the new ticket with the
/// pool's counter before the deposit and gives it to the depositor, advances
/// the counter by one, adds the deposit to principal and ticket total, and
/// asks for exactly the transfer of the deposit into the pool followed by
/// the mint of as many ticket tokens, signed by the pool.
pub proof fn lemma_deposit_numbers_ticket_by_counter(
    d0: Deposit,
    d1: Deposit,
    amount: u64,
    ticket_bump: u8,
    r: Result<Vec<Cpi>, HalopotError>,
)
    requires
        deposit_outcome(d0, d1, amount, ticket_bump, r),
        amount == 1_000_000_000u64,
        d0.pool_state.ticket_count < u64::MAX,
        d0.pool_state.total_principal + amount <= u64::MAX,
        d0.pool_state.total_tickets + amount <= u64::MAX,
    ensures
        r matches Ok(calls) && calls@.len() == 2
            && calls@[0] == (Cpi::TransferToPool { lamports: amount })
            && calls@[1] == (Cpi::MintTickets { amount, pool_bump: d0.pool_state.bump }),
        d1.ticket.id == d0.pool_state.ticket_count,
        d1.ticket.authority == d0.user,
        d1.ticket.bump == ticket_bump,
        d1.user == d0.user,
        d1.pool_state == (PoolState {
            ticket_count: (d0.pool_state.ticket_count + 1) as u64,
            total_principal: (d0.pool_state.total_principal + amount) as u64,
            total_tickets: (d0.pool_state.total_tickets + amount) as u64,
            ..d0.pool_state
        }),
{
}

/// Two accepted deposits, the second made on the pool the first left
/// behind or on any later pool whose counter has not gone back, hand out
/// different ticket numbers.
pub proof fn lemma_deposits_hand_out_distinct_numbers(
    a0: Deposit,
    a1: Deposit,
    ra: Result<Vec<Cpi>, HalopotError>,
    b0: Deposit,
    b1: Deposit,
    rb: Result<Vec<Cpi>, HalopotError>,
    bump_a: u8,
    bump_b: u8,
)
    requires
        deposit_outcome(a0, a1, 1_000_000_000u64, bump_a, ra),
        deposit_outcome(b0, b1, 1_000_000_000u64, bump_b, rb),
        a0.pool_state.ticket_count < u64::MAX,
        a0.pool_state.total_principal + 1_000_000_000u64 <= u64::MAX,
        a0.pool_state.total_tickets + 1_000_000_000u64 <= u64::MAX,
        b0.pool_state.ticket_count < u64::MAX,
        b0.pool_state.total_principal + 1_000_000_000u64 <= u64::MAX,
        b0.pool_state.total_tickets + 1_000_000_000u64 <= u64::MAX,
        b0.pool_state.ticket_count >= a1.pool_state.ticket_count,
    ensures
        a1.ticket.id < b1.ticket.id,
{
    lemma_deposit_numbers_ticket_by_counter(a0, a1, 1_000_000_000u64, bump_a, ra);
    lemma_deposit_numbers_ticket_by_counter(b0, b1, 1_000_000_000u64, bump_b, rb);
}

/// A deposit of anything but one ticket price is refused and changes
/// nothing.
pub proof fn lemma_deposit_of_another_amount_is_refused(
    d0: Deposit,
    d1: Deposit,
    amount: u64,
    ticket_bump: u8,
    r: Result<Vec<Cpi>, HalopotError>,
)
    requires
        deposit_outcome(d0, d1, amount, ticket_bump, r),
        amount != 1_000_000_000u64,
    ensures
        r == Err::<Vec<Cpi>, HalopotError>(HalopotError::IncorrectTicketPrice),
        d1 == d0,
{
}

/// A withdrawal of `amount` within range burns exactly `amount` ticket
/// tokens, moves exactly `amount` lamports from the pool account to the
/// user, takes exactly `amount` off principal and ticket total, and changes
/// nothing else.
pub proof fn lemma_withdraw_pays_back_exactly_the_amount(
    w0: Withdraw,
    w1: Withdraw,
    amount: u64,
    r: Result<Vec<Cpi>, HalopotError>,
)
    requires
        withdraw_outcome(w0, w1, amount, r),
        amount <= w0.pool_lamports,
        w0.user_lamports + amount <= u64::MAX,
        amount <= w0.pool_state.total_principal,
        amount <= w0.pool_state.total_tickets,
    ensures
        r matches Ok(calls) && calls@.len() == 1 && calls@[0] == (Cpi::BurnTickets { amount }),
        w1.user_lamports == w0.user_lamports + amount,
        w1.pool_lamports == w0.pool_lamports - amount,
        w1.pool_state == (PoolState {
            total_principal: (w0.pool_state.total_principal - amount) as u64,
            total_tickets: (w0.pool_state.total_tickets - amount) as u64,
            ..w0.pool_state
        }),
        w1.user == w0.user,
{
}

/// An admin-only request by the admin asks for exactly the requested call
/// and nothing else; by anyone else it is refused as such. For staking the
/// call is a Marinade deposit of exactly the requested lamports, for
/// unstaking a liquid unstake of exactly the requested mSOL.
pub proof fn lemma_admin_call_is_exactly_the_request(
    admin: Address,
    pool: PoolState,
    call: Cpi,
    r: Result<Vec<Cpi>, HalopotError>,
)
    requires
        admin_call_outcome(admin, pool, call, r),
    ensures
        admin == pool.admin ==> (r matches Ok(calls) && calls@.len() == 1 && calls@[0] == call),
        admin != pool.admin ==> r == Err::<Vec<Cpi>, HalopotError>(HalopotError::ConstraintHasOne),
{
}

/// Staking by the admin asks Marinade for a deposit of exactly `amount_sol`
/// lamports of pool SOL, signed with the pool's bump, for every amount.
pub proof fn lemma_stake_deposits_exactly_the_amount(
    admin: Address,
    pool: PoolState,
    amount_sol: u64,
    r: Result<Vec<Cpi>, HalopotError>,
)
    requires
        admin_call_outcome(admin, pool, Cpi::MarinadeDeposit { lamports: amount_sol, pool_bump: pool.bump }, r),
        admin == pool.admin,
    ensures
        r matches Ok(calls) && calls@.len() == 1
            && calls@[0] == (Cpi::MarinadeDeposit { lamports: amount_sol, pool_bump: pool.bump }),
{
    lemma_admin_call_is_exactly_the_request(
        admin,
        pool,
        Cpi::MarinadeDeposit { lamports: amount_sol, pool_bump: pool.bump },
        r,
    );
}

/// Unstaking by the admin asks Marinade to liquid-unstake exactly
/// `amount_msol` of the pool's mSOL, signed with the pool's bump.
pub proof fn lemma_unstake_redeems_exactly_the_amount(
    admin: Address,
    pool: PoolState,
    amount_msol: u64,
    r: Result<Vec<Cpi>, HalopotError>,
)
    requires
        admin_call_outcome(admin, pool, Cpi::MarinadeLiquidUnstake { msol_amount: amount_msol, pool_bump: pool.bump }, r),
        admin == pool.admin,
    ensures
        r matches Ok(calls) && calls@.len() == 1
            && calls@[0] == (Cpi::MarinadeLiquidUnstake { msol_amount: amount_msol, pool_bump: pool.bump }),
{
    lemma_admin_call_is_exactly_the_request(
        admin,
        pool,
        Cpi::MarinadeLiquidUnstake { msol_amount: amount_msol, pool_bump: pool.bump },
        r,
    );
}

/// Initialisation leaves a pool administered by the signer, in its first
/// round, with no principal, no tickets, nothing drawn, and the bumps found.
pub proof fn lemma_initialize_starts_an_empty_pool(
    i0: Initialize,
    i1: Initialize,
    bumps: InitializeBumps,
    r: Result<(), HalopotError>,
)
    requires
        initialize_outcome(i0, i1, bumps, r),
    ensures
        r == Ok::<(), HalopotError>(()),
        i1.admin == i0.admin,
        i1.pool_state.admin == i0.admin,
        i1.pool_state.round_id == 1,
        i1.pool_state.total_principal == 0,
        i1.pool_state.total_tickets == 0,
        i1.pool_state.ticket_count == 0,
        i1.pool_state.winning_id is None,
        i1.pool_state.bump == bumps.pool_state,
        i1.pool_state.ticket_mint_bump == bumps.ticket_mint,
{
}

/// Recording an offer stores exactly the seed, the amount asked for, the
/// maker, the two mints and the escrow's bump.
pub proof fn lemma_init_escrow_records_the_offer(
    m0: Make,
    m1: Make,
    seed: u64,
    receive: u64,
    bumps: MakeBumps,
    r: Result<(), HalopotError>,
)
    requires
        init_escrow_outcome(m0, m1, seed, receive, bumps, r),
    ensures
        r == Ok::<(), HalopotError>(()),
        m1.escrow.seeds == seed,
        m1.escrow.receive == receive,
        m1.escrow.maker == m0.maker,
        m1.escrow.mint_a == m0.mint_a,
        m1.escrow.mint_b == m0.mint_b,
        m1.escrow.bump == bumps.escrow,
        m1.maker == m0.maker,
        m1.mint_a == m0.mint_a,
        m1.mint_a_decimals == m0.mint_a_decimals,
        m1.mint_b == m0.mint_b,
{
}

} // verus!
