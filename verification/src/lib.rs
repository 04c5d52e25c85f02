//! A prize-savings pool: tickets bought at one SOL each, a principal that
//! stays withdrawable, and a draw among the tickets once the pooled SOL has
//! earned yield, whose winner collects the yield.

pub mod cpi;
pub mod error;
pub mod halopot;
pub mod instruction_laws;
pub mod instructions;
pub mod laws;
pub mod seeds;
pub mod states;

pub use instructions::{
    ClaimPrize, Deposit, Initialize, InitializeBumps, Make, MakeBumps, PickWinner, Staking, Unstake, Withdraw,
};
pub use states::{Address, Escrow, PoolState, Ticket};
