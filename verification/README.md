# BTC-to-Ark swaps

A swap of on-chain BTC for Ark VTXOs in three messages. The BTC payer requests (M1), the Ark payer
offers (M2), the BTC payer funds (M3); from then on both settle by watching the chain. An adaptor
signature links the two payments: the signature with which the Ark payer claims the BTC gives the
BTC payer the secret that completes the Ark transfer.

## Layout

- `src/` is the library, verified with Verus: the formats, the transactions and signatures, the
  checks on requests, responses and live chain data, and the flows of both parties.
- `app/` is what surrounds it: the commands, the files, the wallet and the chain.
- `tests/` run the library, single rules as well as whole swaps on a chain in memory.

## How the flows work

Each flow is a function from a phase, the reply to its last action and the state of the swap to the
next phase and the next action (`src/flow.rs`). It does no input or output: the app performs the
action and hands back the reply. What a flow does is its `*_next` relation, and the `law_*` proof
functions beside it state what follows from it, such as that a nonce signs once, that whatever is
broadcast was stored before, or that no secret is revealed outside the claim window.

Checks that read the chain are written over a log of answers (`src/chain.rs`): a check tells which
question it needs answered next, until it passes or fails.

## What is trusted

Encodings, hashes and curve arithmetic come from `bitcoin`, `ark-lib` and `rand`, the escaping of
JSON strings from `serde_json`, and a few functions on paths and strings from std, each call behind a
small function marked `#[verifier::external_body]` whose contract is taken on trust. The doc comment
of each names the outside function and what is claimed of it.
