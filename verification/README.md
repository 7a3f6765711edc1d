# escrowq32026

A token escrow between a maker and a taker, with its decisions proved in Verus.

- `src/state.rs`: addresses, the escrow's data, token accounts, token transfers.
- `src/error.rs`: the program's errors and the account-constraint errors.
- `src/pda.rs`: program-derived addresses (escrow and associated token accounts),
  through `Pubkey::create_program_address` and `Pubkey::try_find_program_address`.
- `src/instructions/`: the accounts of each instruction, their constraints, and the
  steps of each handler.
- `src/lib.rs`: the handlers `make`, `take`, `refund`, `update`, each with an exact
  contract over a spec function of its outcome.
- `src/laws.rs`: properties that span calls (a refund undoes a make, a take pays the
  updated price, an expired escrow cannot be taken or updated, ...).
- `app/lib.rs`: the Anchor program that reads accounts and the clock, calls the
  library, and performs the account creation, transfers and closings it decides.
