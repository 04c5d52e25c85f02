//! Calls into other programs that an instruction asks for. The program
//! decides them; the runtime carries them out, in the order given, and a
//! failing one aborts the whole instruction.

use vstd::prelude::*;

verus! {

/// One cross-program call.
#[derive(Clone, Copy, Debug, PartialEq, Eq)]
pub enum Cpi {
    /// System transfer of `lamports` from the user to the pool account.
    TransferToPool { lamports: u64 },
    /// Mint of `amount` ticket tokens to the user's ticket account, signed
    /// by the pool with the seeds of `pool_signer_seeds(pool_bump)`.
    MintTickets { amount: u64, pool_bump: u8 },
    /// Burn of `amount` ticket tokens from the user's ticket account, signed
    /// by the user.
    BurnTickets { amount: u64 },
    /// Marinade deposit of `lamports` of pool SOL for mSOL, signed by the pool.
    MarinadeDeposit { lamports: u64, pool_bump: u8 },
    /// Marinade liquid unstake of `msol_amount` pool mSOL for SOL, signed by
    /// the pool.
    MarinadeLiquidUnstake { msol_amount: u64, pool_bump: u8 },
    /// Checked token transfer of `amount` (with `decimals`) from the maker's
    /// account into the escrow vault, signed by the maker.
    TransferChecked { amount: u64, decimals: u8 },
}

} // verus!
