use halopot::cpi::Cpi;
use halopot::error::{HalopotError, TokenError};
use halopot::halopot as program;
use halopot::instructions::{
    ClaimPrize, Deposit, Initialize, InitializeBumps, Make, MakeBumps, PickWinner, Staking, Unstake, Withdraw,
};
use halopot::seeds::{pool_signer_seeds, ticket_seeds};
use halopot::states::{Address, Escrow, PoolState, Ticket, TICKET_PRICE};

fn addr(b: u8) -> Address {
    Address { bytes: [b; 32] }
}

fn empty_pool() -> PoolState {
    PoolState {
        admin: addr(0),
        round_id: 0,
        total_principal: 0,
        total_tickets: 0,
        bump: 0,
        ticket_mint_bump: 0,
        ticket_count: 0,
        winning_id: None,
    }
}

fn empty_ticket() -> Ticket {
    Ticket { authority: addr(0), id: 0, bump: 0 }
}

fn fresh_pool(admin: Address) -> PoolState {
    let mut init = Initialize { admin, pool_state: empty_pool() };
    init.initialize(&InitializeBumps { pool_state: 254, ticket_mint: 253 }).unwrap();
    init.pool_state
}

fn buy(pool: PoolState, user: Address) -> (PoolState, Ticket) {
    let mut d = Deposit { user, pool_state: pool, ticket: empty_ticket() };
    d.deposit(TICKET_PRICE, 200).unwrap();
    (d.pool_state, d.ticket)
}

#[test]
fn initialize_writes_a_fresh_pool() {
    let pool = fresh_pool(addr(7));
    assert_eq!(
        pool,
        PoolState {
            admin: addr(7),
            round_id: 1,
            total_principal: 0,
            total_tickets: 0,
            bump: 254,
            ticket_mint_bump: 253,
            ticket_count: 0,
            winning_id: None,
        }
    );
}

#[test]
fn initialize_through_the_program_entry() {
    let mut init = Initialize { admin: addr(3), pool_state: empty_pool() };
    assert_eq!(program::initialize(&mut init, &InitializeBumps { pool_state: 1, ticket_mint: 2 }), Ok(()));
    assert_eq!(init.pool_state.admin, addr(3));
    assert_eq!(init.pool_state.round_id, 1);
    assert_eq!(init.pool_state.bump, 1);
    assert_eq!(init.pool_state.ticket_mint_bump, 2);
}

#[test]
fn deposit_of_one_sol_issues_a_ticket() {
    let pool = fresh_pool(addr(1));
    let mut d = Deposit { user: addr(9), pool_state: pool, ticket: empty_ticket() };
    let calls = d.deposit(1_000_000_000, 17).unwrap();
    assert_eq!(
        calls,
        vec![
            Cpi::TransferToPool { lamports: 1_000_000_000 },
            Cpi::MintTickets { amount: 1_000_000_000, pool_bump: 254 },
        ]
    );
    assert_eq!(d.ticket, Ticket { authority: addr(9), id: 0, bump: 17 });
    assert_eq!(d.pool_state.ticket_count, 1);
    assert_eq!(d.pool_state.total_principal, 1_000_000_000);
    assert_eq!(d.pool_state.total_tickets, 1_000_000_000);
    assert_eq!(d.user, addr(9));
}

#[test]
fn deposit_of_any_other_amount_is_refused() {
    let pool = fresh_pool(addr(1));
    for amount in [0u64, 1, 999_999_999, 1_000_000_001, 2_000_000_000, u64::MAX] {
        let before = Deposit { user: addr(9), pool_state: pool, ticket: empty_ticket() };
        let mut d = before;
        assert_eq!(d.deposit(amount, 1), Err(HalopotError::IncorrectTicketPrice));
        assert_eq!(d, before);
    }
}

#[test]
fn deposit_through_the_program_entry() {
    let mut d = Deposit { user: addr(4), pool_state: fresh_pool(addr(1)), ticket: empty_ticket() };
    let calls = program::deposit(&mut d, TICKET_PRICE, 5).unwrap();
    assert_eq!(calls.len(), 2);
    assert_eq!(d.ticket.id, 0);
    assert_eq!(program::deposit(&mut d, 5, 5), Err(HalopotError::IncorrectTicketPrice));
}

#[test]
fn consecutive_deposits_number_tickets_in_order() {
    let mut pool = fresh_pool(addr(1));
    let mut ids = Vec::new();
    for u in 10..15u8 {
        let (p, t) = buy(pool, addr(u));
        assert_eq!(t.authority, addr(u));
        ids.push(t.id);
        pool = p;
    }
    assert_eq!(ids, vec![0, 1, 2, 3, 4]);
    assert_eq!(pool.ticket_count, 5);
    assert_eq!(pool.total_principal, 5 * TICKET_PRICE);
    assert_eq!(pool.total_tickets, pool.total_principal);
}

#[test]
fn withdraw_burns_tickets_and_pays_back() {
    let (pool, _) = buy(fresh_pool(addr(1)), addr(2));
    let mut w = Withdraw { user: addr(2), user_lamports: 500, pool_state: pool, pool_lamports: 3_000_000_000 };
    let calls = w.withdraw(400_000_000).unwrap();
    assert_eq!(calls, vec![Cpi::BurnTickets { amount: 400_000_000 }]);
    assert_eq!(w.pool_lamports, 2_600_000_000);
    assert_eq!(w.user_lamports, 400_000_500);
    assert_eq!(w.pool_state.total_principal, 600_000_000);
    assert_eq!(w.pool_state.total_tickets, 600_000_000);
    assert_eq!(w.pool_state.ticket_count, 1);
}

#[test]
fn withdraw_through_the_program_entry() {
    let (pool, _) = buy(fresh_pool(addr(1)), addr(2));
    let mut w = Withdraw { user: addr(2), user_lamports: 0, pool_state: pool, pool_lamports: TICKET_PRICE };
    assert_eq!(program::withdraw(&mut w, TICKET_PRICE), Ok(vec![Cpi::BurnTickets { amount: TICKET_PRICE }]));
    assert_eq!(w.pool_lamports, 0);
    assert_eq!(w.user_lamports, TICKET_PRICE);
}

#[test]
fn withdraw_right_after_deposit_restores_the_pool() {
    let start = fresh_pool(addr(1));
    let (after_deposit, _) = buy(start, addr(2));
    let mut w = Withdraw { user: addr(2), user_lamports: 10, pool_state: after_deposit, pool_lamports: TICKET_PRICE + 77 };
    w.withdraw(TICKET_PRICE).unwrap();
    assert_eq!(w.pool_state, PoolState { ticket_count: start.ticket_count + 1, ..start });
    assert_eq!(w.pool_lamports, 77);
    assert_eq!(w.user_lamports, TICKET_PRICE + 10);
}

fn pool_with_tickets(admin: Address, n: u64) -> PoolState {
    let mut pool = fresh_pool(admin);
    for u in 0..n {
        pool = buy(pool, addr(100 + u as u8)).0;
    }
    pool
}

#[test]
fn pick_winner_draws_timestamp_modulo_ticket_count() {
    let pool = pool_with_tickets(addr(1), 100);
    let mut p = PickWinner { admin: addr(1), pool_state: pool, pool_lamports: pool.total_principal + 1, rent_reserve: 0 };
    assert_eq!(p.pick_winner(12345), Ok(45));
    assert_eq!(p.pool_state.winning_id, Some(45));
    assert_eq!(p.pool_state, PoolState { winning_id: Some(45), ..pool });
}

#[test]
fn pick_winner_reads_a_negative_timestamp_as_its_bits() {
    let pool = pool_with_tickets(addr(1), 7);
    let mut p = PickWinner { admin: addr(1), pool_state: pool, pool_lamports: u64::MAX, rent_reserve: 0 };
    // -1 as u64 is u64::MAX, and u64::MAX % 7 == 1.
    assert_eq!(p.pick_winner(-1), Ok(1));
}

#[test]
fn pick_winner_without_yield_is_refused() {
    let pool = pool_with_tickets(addr(1), 3);
    for balance in [0, pool.total_principal - 1, pool.total_principal] {
        let before = PickWinner { admin: addr(1), pool_state: pool, pool_lamports: balance, rent_reserve: 0 };
        let mut p = before;
        assert_eq!(p.pick_winner(99), Err(HalopotError::NoYieldToDistribute));
        assert_eq!(p, before);
    }
}

#[test]
fn pick_winner_by_someone_else_is_refused() {
    let pool = pool_with_tickets(addr(1), 3);
    let before = PickWinner { admin: addr(2), pool_state: pool, pool_lamports: u64::MAX, rent_reserve: 0 };
    let mut p = before;
    assert_eq!(p.pick_winner(99), Err(HalopotError::ConstraintHasOne));
    assert_eq!(p, before);
}

#[test]
fn pick_winner_through_the_program_entry() {
    let pool = pool_with_tickets(addr(1), 4);
    let mut p = PickWinner { admin: addr(1), pool_state: pool, pool_lamports: u64::MAX, rent_reserve: 0 };
    assert_eq!(program::pick_winner(&mut p, 10), Ok(2));
}

fn drawn_pool(winner: u64) -> PoolState {
    let pool = pool_with_tickets(addr(1), 5);
    let mut p = PickWinner { admin: addr(1), pool_state: pool, pool_lamports: pool.total_principal + 1, rent_reserve: 0 };
    assert_eq!(p.pick_winner(winner as i64), Ok(winner));
    p.pool_state
}

#[test]
fn claim_pays_the_yield_to_the_winner() {
    let pool = drawn_pool(3);
    let ticket = Ticket { authority: addr(103), id: 3, bump: 200 };
    let balance = pool.total_principal + 123_456;
    let mut c = ClaimPrize { user: addr(103), user_lamports: 1_000, pool_state: pool, pool_lamports: balance, ticket };
    assert_eq!(c.claim_prize(), Ok(()));
    assert_eq!(c.user_lamports, 124_456);
    assert_eq!(c.pool_lamports, pool.total_principal);
    assert_eq!(c.pool_state, PoolState { winning_id: None, ..pool });
}

#[test]
fn claim_is_refused_without_a_draw() {
    let pool = pool_with_tickets(addr(1), 2);
    let before = ClaimPrize {
        user: addr(100),
        user_lamports: 0,
        pool_state: pool,
        pool_lamports: u64::MAX,
        ticket: Ticket { authority: addr(100), id: 0, bump: 1 },
    };
    let mut c = before;
    assert_eq!(c.claim_prize(), Err(HalopotError::NoWinnerSelected));
    assert_eq!(c, before);
}

#[test]
fn claim_with_another_ticket_is_refused() {
    let pool = drawn_pool(3);
    let before = ClaimPrize {
        user: addr(102),
        user_lamports: 0,
        pool_state: pool,
        pool_lamports: u64::MAX,
        ticket: Ticket { authority: addr(102), id: 2, bump: 1 },
    };
    let mut c = before;
    assert_eq!(c.claim_prize(), Err(HalopotError::WrongTicket));
    assert_eq!(c, before);
}

#[test]
fn claim_by_someone_not_holding_the_ticket_is_refused() {
    let pool = drawn_pool(3);
    let before = ClaimPrize {
        user: addr(50),
        user_lamports: 0,
        pool_state: pool,
        pool_lamports: u64::MAX,
        ticket: Ticket { authority: addr(103), id: 3, bump: 1 },
    };
    let mut c = before;
    assert_eq!(c.claim_prize(), Err(HalopotError::WrongWinnerAddress));
    assert_eq!(c, before);
}

#[test]
fn prize_is_paid_once() {
    let pool = drawn_pool(0);
    let ticket = Ticket { authority: addr(100), id: 0, bump: 1 };
    let mut c = ClaimPrize {
        user: addr(100),
        user_lamports: 0,
        pool_state: pool,
        pool_lamports: pool.total_principal + 10,
        ticket,
    };
    assert_eq!(program::claim_prize(&mut c), Ok(()));
    assert_eq!(c.user_lamports, 10);
    let before = c;
    assert_eq!(program::claim_prize(&mut c), Err(HalopotError::NoWinnerSelected));
    assert_eq!(c, before);
}

#[test]
fn claim_keeps_lamports_and_leaves_the_principal() {
    let pool = drawn_pool(4);
    let mut c = ClaimPrize {
        user: addr(104),
        user_lamports: 5,
        pool_state: pool,
        pool_lamports: pool.total_principal,
        ticket: Ticket { authority: addr(104), id: 4, bump: 1 },
    };
    let total = c.user_lamports + c.pool_lamports;
    assert_eq!(c.claim_prize(), Ok(()));
    assert_eq!(c.user_lamports, 5);
    assert_eq!(c.user_lamports + c.pool_lamports, total);
}

#[test]
fn staking_is_for_the_admin_only() {
    let pool = fresh_pool(addr(1));
    let mut s = Staking { admin: addr(1), pool_state: pool };
    assert_eq!(s.stake(42), Ok(vec![Cpi::MarinadeDeposit { lamports: 42, pool_bump: 254 }]));
    assert_eq!(s.unstake(7), Ok(vec![Cpi::MarinadeLiquidUnstake { msol_amount: 7, pool_bump: 254 }]));
    let mut other = Staking { admin: addr(2), pool_state: pool };
    assert_eq!(other.stake(42), Err(HalopotError::ConstraintHasOne));
    assert_eq!(other.unstake(42), Err(HalopotError::ConstraintHasOne));
    assert_eq!(s.pool_state, pool);
}

#[test]
fn unstaking_is_for_the_admin_only() {
    let pool = fresh_pool(addr(1));
    let mut u = Unstake { admin: addr(1), pool_state: pool };
    assert_eq!(u.unstake(9), Ok(vec![Cpi::MarinadeLiquidUnstake { msol_amount: 9, pool_bump: 254 }]));
    let mut other = Unstake { admin: addr(8), pool_state: pool };
    assert_eq!(other.unstake(9), Err(HalopotError::ConstraintHasOne));
}

#[test]
fn maker_records_the_offer_and_moves_the_tokens() {
    let mut m = Make {
        maker: addr(1),
        mint_a: addr(2),
        mint_a_decimals: 6,
        mint_b: addr(3),
        escrow: Escrow { seeds: 0, receive: 0, maker: addr(0), mint_a: addr(0), mint_b: addr(0), bump: 0 },
    };
    assert_eq!(m.init_escrow(11, 500, &MakeBumps { escrow: 250 }), Ok(()));
    assert_eq!(
        m.escrow,
        Escrow { seeds: 11, receive: 500, maker: addr(1), mint_a: addr(2), mint_b: addr(3), bump: 250 }
    );
    assert_eq!(m.deposit(1234), Ok(vec![Cpi::TransferChecked { amount: 1234, decimals: 6 }]));
}

#[test]
fn pool_signs_with_its_name_and_bump() {
    assert_eq!(pool_signer_seeds(254), vec![b"halopot".to_vec(), vec![254u8]]);
}

#[test]
fn ticket_addresses_are_seeded_by_number() {
    assert_eq!(ticket_seeds(258), vec![b"ticket".to_vec(), 258u64.to_le_bytes().to_vec()]);
    assert_eq!(ticket_seeds(0)[1], vec![0u8; 8]);
}

#[test]
fn addresses_compare_byte_by_byte() {
    let a = addr(5);
    let mut b = addr(5);
    assert!(a.same_as(&b));
    b.bytes[31] = 6;
    assert!(!a.same_as(&b));
    b.bytes[31] = 5;
    b.bytes[0] = 0;
    assert!(!a.same_as(&b));
}

#[test]
fn accounting_holds_through_a_round() {
    let admin = addr(1);
    let mut pool = fresh_pool(admin);
    for u in 0..4u8 {
        pool = buy(pool, addr(10 + u)).0;
        assert_eq!(pool.total_principal, pool.total_tickets);
    }
    let mut w = Withdraw { user: addr(10), user_lamports: 0, pool_state: pool, pool_lamports: 4 * TICKET_PRICE };
    w.withdraw(TICKET_PRICE).unwrap();
    pool = w.pool_state;
    assert_eq!(pool.total_principal, pool.total_tickets);
    let mut p = PickWinner { admin, pool_state: pool, pool_lamports: w.pool_lamports + 500, rent_reserve: 0 };
    let winner = p.pick_winner(1_700_000_003).unwrap();
    assert!(winner < pool.ticket_count);
    assert_eq!(winner, 1_700_000_003 % 4);
    pool = p.pool_state;
    let mut c = ClaimPrize {
        user: addr(10 + winner as u8),
        user_lamports: 0,
        pool_state: pool,
        pool_lamports: p.pool_lamports,
        ticket: Ticket { authority: addr(10 + winner as u8), id: winner, bump: 0 },
    };
    c.claim_prize().unwrap();
    assert_eq!(c.user_lamports, 500);
    assert_eq!(c.pool_lamports, c.pool_state.total_principal);
    assert_eq!(c.pool_state.total_principal, c.pool_state.total_tickets);
    assert_eq!(c.pool_state.winning_id, None);
}

#[test]
fn token_error_names_insufficient_balance() {
    let e = TokenError::InsufficientBalance;
    assert_eq!(e, TokenError::InsufficientBalance);
    assert_eq!(format!("{:?}", e), "InsufficientBalance");
}

#[test]
fn stake_and_unstake_through_the_program_entries() {
    let pool = fresh_pool(addr(1));
    let mut s = Staking { admin: addr(1), pool_state: pool };
    assert_eq!(program::stake(&mut s, 5_000), Ok(vec![Cpi::MarinadeDeposit { lamports: 5_000, pool_bump: 254 }]));
    let mut u = Unstake { admin: addr(1), pool_state: pool };
    assert_eq!(
        program::unstake(&mut u, 4_000),
        Ok(vec![Cpi::MarinadeLiquidUnstake { msol_amount: 4_000, pool_bump: 254 }])
    );
    let before = Staking { admin: addr(6), pool_state: pool };
    let mut other = before;
    assert_eq!(program::stake(&mut other, 5_000), Err(HalopotError::ConstraintHasOne));
    assert_eq!(other, before);
    let mut other_u = Unstake { admin: addr(6), pool_state: pool };
    assert_eq!(program::unstake(&mut other_u, 1), Err(HalopotError::ConstraintHasOne));
}

#[test]
fn draws_agree_on_equal_inputs() {
    let pool_a = pool_with_tickets(addr(1), 9);
    let mut pool_b = pool_with_tickets(addr(2), 9);
    pool_b.round_id = 7;
    let mut a = PickWinner { admin: addr(1), pool_state: pool_a, pool_lamports: pool_a.total_principal + 3, rent_reserve: 0 };
    let mut b = PickWinner { admin: addr(2), pool_state: pool_b, pool_lamports: pool_b.total_principal + 3, rent_reserve: 0 };
    assert_eq!(a.pick_winner(1_234_567), b.pick_winner(1_234_567));
    assert_eq!(a.pool_state.winning_id, b.pool_state.winning_id);
}

#[test]
fn cleared_draw_stays_cleared_through_deposits_and_withdrawals() {
    let pool = drawn_pool(1);
    let mut c = ClaimPrize {
        user: addr(101),
        user_lamports: 0,
        pool_state: pool,
        pool_lamports: pool.total_principal + 9,
        ticket: Ticket { authority: addr(101), id: 1, bump: 0 },
    };
    c.claim_prize().unwrap();
    let (after, _) = buy(c.pool_state, addr(77));
    assert_eq!(after.winning_id, None);
    let mut w = Withdraw { user: addr(77), user_lamports: 0, pool_state: after, pool_lamports: after.total_principal };
    w.withdraw(TICKET_PRICE).unwrap();
    assert_eq!(w.pool_state.winning_id, None);
    let mut again = ClaimPrize { pool_state: w.pool_state, ..c };
    assert_eq!(again.claim_prize(), Err(HalopotError::NoWinnerSelected));
}

#[test]
fn principal_stays_within_one_price_per_ticket() {
    let mut pool = pool_with_tickets(addr(1), 3);
    assert!(pool.total_principal <= pool.ticket_count * TICKET_PRICE);
    let mut w = Withdraw { user: addr(100), user_lamports: 0, pool_state: pool, pool_lamports: u64::MAX / 2 };
    w.withdraw(TICKET_PRICE / 2).unwrap();
    pool = w.pool_state;
    assert!(pool.total_principal <= pool.ticket_count * TICKET_PRICE);
    assert_eq!(pool.total_principal, pool.total_tickets);
}

const RENT_RESERVE: u64 = 1_468_560;

#[test]
fn pick_winner_does_not_count_the_rent_reserve_as_yield() {
    let pool = pool_with_tickets(addr(1), 3);
    for balance in [pool.total_principal + 1, pool.total_principal + RENT_RESERVE] {
        let before = PickWinner { admin: addr(1), pool_state: pool, pool_lamports: balance, rent_reserve: RENT_RESERVE };
        assert!(!before.accepts());
        let mut p = before;
        assert_eq!(p.pick_winner(5), Err(HalopotError::NoYieldToDistribute));
        assert_eq!(p, before);
    }
    let mut p = PickWinner {
        admin: addr(1),
        pool_state: pool,
        pool_lamports: pool.total_principal + RENT_RESERVE + 1,
        rent_reserve: RENT_RESERVE,
    };
    assert!(p.accepts());
    assert_eq!(p.pick_winner(5), Ok(2));
}

#[test]
fn pick_winner_accepts_only_the_admin_with_yield() {
    let pool = pool_with_tickets(addr(1), 2);
    let p = PickWinner { admin: addr(2), pool_state: pool, pool_lamports: u64::MAX, rent_reserve: RENT_RESERVE };
    assert!(!p.accepts());
    let q = PickWinner { admin: addr(1), pool_state: pool, pool_lamports: u64::MAX, rent_reserve: u64::MAX };
    assert!(!q.accepts());
}

#[test]
fn range_checks_match_the_instructions() {
    let pool = pool_with_tickets(addr(1), 2);
    let d = Deposit { user: addr(3), pool_state: pool, ticket: empty_ticket() };
    assert!(d.fits(TICKET_PRICE));
    let full = Deposit { pool_state: PoolState { ticket_count: u64::MAX, ..pool }, ..d };
    assert!(!full.fits(TICKET_PRICE));
    let rich = Deposit { pool_state: PoolState { total_principal: u64::MAX, ..pool }, ..d };
    assert!(!rich.fits(1));

    let w = Withdraw { user: addr(3), user_lamports: 0, pool_state: pool, pool_lamports: TICKET_PRICE };
    assert!(w.fits(TICKET_PRICE));
    assert!(!w.fits(TICKET_PRICE + 1));
    let w2 = Withdraw { user_lamports: u64::MAX, ..w };
    assert!(!w2.fits(1));

    let drawn = drawn_pool(2);
    let c = ClaimPrize {
        user: addr(102),
        user_lamports: 0,
        pool_state: drawn,
        pool_lamports: drawn.total_principal + 4,
        ticket: Ticket { authority: addr(102), id: 2, bump: 0 },
    };
    assert!(c.accepts());
    assert!(c.fits());
    assert!(!ClaimPrize { user: addr(9), ..c }.accepts());
    assert!(!ClaimPrize { ticket: Ticket { id: 1, ..c.ticket }, ..c }.accepts());
    assert!(!ClaimPrize { pool_lamports: drawn.total_principal - 1, ..c }.fits());
    assert!(!ClaimPrize { user_lamports: u64::MAX, ..c }.fits());
    assert!(!ClaimPrize { pool_state: pool, ..c }.accepts());
}

#[test]
fn drawn_ticket_stays_claimable_across_deposits() {
    let pool = drawn_pool(4);
    let (after, _) = buy(pool, addr(60));
    assert_eq!(after.winning_id, Some(4));
    let c = ClaimPrize {
        user: addr(104),
        user_lamports: 0,
        pool_state: after,
        pool_lamports: after.total_principal + 8,
        ticket: Ticket { authority: addr(104), id: 4, bump: 0 },
    };
    assert!(c.accepts());
    let mut c = c;
    assert_eq!(c.claim_prize(), Ok(()));
    assert_eq!(c.user_lamports, 8);
}
