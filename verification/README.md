# mithaq

The Mithaq contracts (the Azman token, the certificate registry, governance and
the escrow contract with its hybrid liquidity engine) as a verified library.

- `src/` holds each contract's state as plain values (accounts as numbers, texts
  as bytes) and every operation as a verified transition: each returns what it
  decided (events, token movements, calls on the other contracts) or an error,
  and a refused request leaves the state as it was. `law_*` proof functions state
  the properties that span operations.
- `app/` runs the library on Soroban: storage, the address book, authorization,
  token and cross-contract calls, and events. The one host service that the
  library calls itself is the SHA-256 digest that names a certificate of
  completion (`src/digest.rs`).
- `tests/` exercises the library on concrete values.
