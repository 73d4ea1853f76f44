# paytoroast

Pay to roast: a roaster escrows tokens behind a roast message; the receiver
accepts the roast and is paid, or rejects it and the roaster is refunded.

- `src/` is the verified core. Each instruction (`initialize_roast`,
  `deposit_in_escrow`, `receiver_responds`, `execute_transfer`,
  `close_roast_escrow`) takes the accounts it is given as plain values,
  makes the checks that the instruction's account constraints make, and
  returns what it decides: the new roast, the token transfer to request, the
  settlement, or where the rent goes. `src/pda.rs` derives the program
  addresses through solana's `create_program_address` and
  `try_find_program_address`; `src/laws.rs` holds the properties proved
  across instructions.
- `app/` is the on-chain program around it: the entry points, the account
  structs with their constraints, and the token program calls that carry out
  what the core decided.
- `tests/` runs the core on concrete accounts, with addresses derived by the
  solana and SPL crates themselves.
