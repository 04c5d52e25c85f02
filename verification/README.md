# halopot

A prize-savings pool on Solana: users buy tickets at one SOL each, the pooled
SOL is staked with Marinade, a ticket is drawn once the pool account holds more
than its principal plus its rent-exempt reserve, and the holder of the drawn ticket collects everything
beyond the principal. Ticket holders can take their principal back at any time
by burning ticket tokens.

Layout:

- `src/` is the verified library. Each instruction is a method on a plain
  record of what it reads and writes (`src/instructions/`), with a contract
  that pins down its answer, the records it leaves behind, and the calls into
  other programs it asks for (`src/cpi.rs`). `src/laws.rs` proves what holds
  across instructions: every pool state reachable from `initialize` keeps its
  recorded principal (`total_principal`) equal to its recorded ticket total
  (`total_tickets`) and only ever draws a ticket that was
  handed out, ticket numbers are never reused, a withdrawal undoes a deposit,
  and a prize is paid once.
- `app/` is the on-chain program: account validation, the cross-program calls
  the library asks for, the clock, and the writing back of records and
  lamport balances.
- `tests/` runs the library on concrete pools.
