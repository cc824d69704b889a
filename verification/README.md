# hemion

The verified core of Hemion, a local-first accountability console with legacy
multi-chain wallet tools. Every decision the console and the wallet make is a
function with a Verus contract; the user interface, the platform vault, the
network services and the clock stay outside the library.

## Layout

- `src/` — the library, verified by Verus.
  - `state`, `records`, `chain` — the wallet state, its records and the pure
    state transitions (tracking, lookups, removal, the signing session).
  - `session`, `portable`, `persistence`, `storage`, `key_manager` — unlocking,
    portable wallet import/export decisions, the persisted record, encrypted
    wallet storage and the key manager.
  - `lifecycle`, `finality`, `inspector`, `transfer_form` — runtime transfer
    projections, dual-lane finality, the evidence inspector and the transfer
    form's preflight and review.
  - `explorer`, `accountability`, `navigation`, `offline`, `wallet_forms`,
    `zk_proofs` — the console's instruments, navigation and notices.
  - `codec`, `crypto`, `chains`, `ids`, `text` — encodings, trusted bindings to
    the cryptographic crates, Taproot addresses, identifiers and text helpers.
- `tests/` — executable tests of the library.
- `app/` — a command-line entry that inspects proof files offline, with the
  error types, clock and floating-point display helpers the library leaves to
  the application.
