# peerme_dao

Verified decision logic of the PeerMe DAO contracts on MultiversX: the
Manager (entity setup, deployment from a template, DEX swaps and events)
and the Entity contracts (sealing, voting, finalisation).

- `src/` is the library, checked by Verus. Each endpoint is a function from
  the stored state and the call's inputs (caller, payment, outside results)
  to the new state and the actions the chain must perform, or to the error
  with which the transaction reverts, leaving the state as it was.
- `src/laws.rs` holds properties that relate several endpoints or calls.
- Amounts and vote tallies are unbounded natural numbers (`src/bignat.rs`), so a
  counted vote always adds its full weight.
- `tests/` runs the library on concrete values.
- `app/` is the contract glue: storage mappers, payments, calls to other
  contracts and events, built with `multiversx-sc`.
