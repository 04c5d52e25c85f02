//! The program's instructions, as its clients call them.

use vstd::prelude::*;
use crate::cpi::Cpi;
use crate::error::HalopotError;
use crate::instructions::claim_prize::{claim_fits, claim_outcome, claim_refusal, ClaimPrize};
use crate::instructions::deposit::{deposit_fits, deposit_outcome, Deposit};
use crate::instructions::main::{initialize_outcome, Initialize, InitializeBumps};
use crate::instructions::stake::{admin_call_outcome, Staking};
use crate::instructions::unstake::Unstake;
use crate::instructions::pick_winner::{pick_winner_outcome, pick_winner_refusal, PickWinner};
use crate::instructions::withdraw::{withdraw_fits, withdraw_outcome, Withdraw};
use crate::states::TICKET_PRICE;

verus! {

/// Sets up the pool.
pub fn initialize(ctx: &mut Initialize, bumps: &InitializeBumps) -> (r: Result<(), HalopotError>)
    ensures
        initialize_outcome(*old(ctx), *final(ctx), *bumps, r),
{
    ctx.initialize(bumps)?;
    Ok(())
}

/// Buys a ticket for `amount_sol` lamports; returns the calls to carry out.
pub fn deposit(ctx: &mut Deposit, amount_sol: u64, ticket_bump: u8) -> (r: Result<Vec<Cpi>, HalopotError>)
    requires
        amount_sol == TICKET_PRICE ==> deposit_fits(old(ctx).pool_state, amount_sol),
    ensures
        deposit_outcome(*old(ctx), *final(ctx), amount_sol, ticket_bump, r),
{
    ctx.deposit(amount_sol, ticket_bump)
}

/// Pays back `amount_sol` of principal; returns the calls to carry out.
pub fn withdraw(ctx: &mut Withdraw, amount_sol: u64) -> (r: Result<Vec<Cpi>, HalopotError>)
    requires
        withdraw_fits(*old(ctx), amount_sol),
    ensures
        withdraw_outcome(*old(ctx), *final(ctx), amount_sol, r),
{
    ctx.withdraw(amount_sol)
}

/// Draws the round's winning ticket at `unix_timestamp` and returns it.
pub fn pick_winner(ctx: &mut PickWinner, unix_timestamp: i64) -> (r: Result<u64, HalopotError>)
    requires
        pick_winner_refusal(*old(ctx)) is None ==> old(ctx).pool_state.ticket_count > 0,
    ensures
        pick_winner_outcome(*old(ctx), *final(ctx), unix_timestamp, r),
{
    ctx.pick_winner(unix_timestamp)
}

/// Pays the prize to the holder of the drawn ticket.
pub fn claim_prize(ctx: &mut ClaimPrize) -> (r: Result<(), HalopotError>)
    requires
        claim_refusal(old(ctx).pool_state, old(ctx).ticket, old(ctx).user) is None ==> claim_fits(*old(ctx)),
    ensures
        claim_outcome(*old(ctx), *final(ctx), r),
{
    ctx.claim_prize()?;
    Ok(())
}

/// Lets the admin move `amount_sol` lamports of pool SOL into Marinade for
/// mSOL; returns the call to carry out. Refused for anyone else.
pub fn stake(ctx: &mut Staking, amount_sol: u64) -> (r: Result<Vec<Cpi>, HalopotError>)
    ensures
        *final(ctx) == *old(ctx),
        admin_call_outcome(
            old(ctx).admin,
            old(ctx).pool_state,
            Cpi::MarinadeDeposit { lamports: amount_sol, pool_bump: old(ctx).pool_state.bump },
            r,
        ),
{
    ctx.stake(amount_sol)
}

/// Lets the admin turn `amount_msol` of the pool's mSOL back into SOL paid
/// to the pool; returns the call to carry out. Refused for anyone else.
pub fn unstake(ctx: &mut Unstake, amount_msol: u64) -> (r: Result<Vec<Cpi>, HalopotError>)
    ensures
        *final(ctx) == *old(ctx),
        admin_call_outcome(
            old(ctx).admin,
            old(ctx).pool_state,
            Cpi::MarinadeLiquidUnstake { msol_amount: amount_msol, pool_bump: old(ctx).pool_state.bump },
            r,
        ),
{
    ctx.unstake(amount_msol)
}

} // verus!
