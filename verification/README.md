# verita

Escrow for construction retention. The main contractor pays the retention into a vault
that the program owns and cannot claw it back. A certifier can release the first moiety;
once the defects-liability period plus grace has elapsed, the subcontractor releases
everything undisputed without a counterparty's signature. When all of it is released,
anybody can close the vault, and the rent reserve returns to the party that fronted it.

The rules live in `src/` and are verified with Verus. `app/` is the Solana program around
them: it loads accounts, calls the library and carries out transfers. Built with the
`demo` feature it has the demo clock; a production build leaves the feature out.
`extras/verita.idl.json` describes the program's interface to clients, who derive the
vault's address themselves from `vault`, the sha256 of the project id, the subcontractor
and the main contractor.

- `src/state.rs`: the vault, its stored form, and the amounts and times derived from it
- `src/instructions.rs`: what each instruction does to its accounts
- `src/program.rs`: which accounts an instruction accepts
- `src/address.rs`: where a vault lives
- `src/runtime.rs`, `src/rent.rs`: the clock and the rent parameters
- `src/laws.rs`: what holds of every vault and every instruction
- `src/history.rs`: what holds over every history of a vault
- `src/accounts.rs`, `src/keys.rs`, `src/error.rs`: accounts, keys and errors
