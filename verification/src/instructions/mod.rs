pub mod claim_prize;
pub mod deposit;
pub mod main;
pub mod make;
pub mod pick_winner;
pub mod stake;
pub mod unstake;
pub mod withdraw;

pub use claim_prize::ClaimPrize;
pub use deposit::Deposit;
pub use main::{Initialize, InitializeBumps};
pub use make::{Make, MakeBumps};
pub use pick_winner::PickWinner;
pub use stake::Staking;
pub use unstake::Unstake;
pub use withdraw::Withdraw;
