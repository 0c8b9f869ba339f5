# Accord

A multisig wallet for Soroban whose owners decide by weight. Payments, new and
departing owners, weights, the threshold and spending limits are proposed by an
owner, approved by owners whose weights together reach the quorum, and executed.
A guardian can freeze the wallet; co-signing owners can end a freeze, name the
guardian, tighten the weight cap and replace the code.

## Layout

- `src/` is the wallet, verified with Verus.
  - `types` and `ledger`: what is passed, stored and told.
  - `rules`: when a request is refused and what an accepted one changes, as
    mathematical functions over the state.
  - `contract`, `proposals`, `voting`, `execution`, `administration`, `queries`:
    the requests, each proved to follow its rule. `spending` adds up payments and
    keeps the record of what was spent.
  - `owners`: the list of owners, in a map of the Soroban host. The only code
    that is trusted: its calls into `soroban_sdk::Map`.
  - `requests` and `laws`: what every request keeps and how requests bear on
    each other.
- `app/` is the contract that is deployed: storage, authorization, token calls,
  events and the replacement of code, around the library.
- `tests/` runs the library.

## State

A request is answered in an `Environment`, which holds the ledger and records
whose authorization was asked for and what was told. A request that is refused
leaves the ledger as it was. What a token contract answers is handed in:
`tokens_to_ask` and `transfers_due` say which calls to make.
