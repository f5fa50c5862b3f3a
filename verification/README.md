# isotonic

The Isotonic lending protocol for CosmWasm chains, with its decision logic
verified in Verus.

Lenders deposit a base asset on a market and receive L-tokens; borrowers take
the base asset against their credit line and owe B-tokens. Both tokens are
rebased as interest accrues, once per charge period, and part of the
borrowers' interest goes to the market's reserve. The credit agency creates
markets, records which markets an account takes part in, sums its credit
lines in a common token, and liquidates accounts whose debt exceeds their
credit line. A price oracle maps pairs of denominations to liquidity pools.

## Layout

- `src/` — the verified library.
  - `decimal.rs`: fixed-point decimals with 18 fractional digits, checked
    multiplication and exponentiation.
  - `coin.rs`, `token.rs`, `price.rs`, `credit_line.rs`: tokens, coins,
    displayed amounts of rebasing tokens, price conversion, credit lines.
  - `interest.rs`: interest rate curves, utilisation, compounded interest per
    charge period, and the interest charge.
  - `market.rs` and `market/`: the market's handlers (deposit, withdraw,
    borrow, repay, swaps for liquidations), queries and governance.
  - `credit_agency.rs` and `credit_agency/`: market creation, market
    participation, total credit lines, pagination, liquidation and repayment
    with collateral, governance.
  - `lendex.rs`: the earlier credit agency.
  - `oracle.rs`: the pool registry and the byte order of denominations.
  - `reply.rs`: the address of a contract instantiated, read from the
    protobuf-encoded data of the reply.
  - `utils.rs`: ordering of a pair.
- `tests/` — tests of the library, including simulations of markets and of
  the credit agency driven by the library's messages.
- `app/` — the CosmWasm contracts around the library: entry points, storage,
  JSON messages, and queries to other contracts and to the chain.

Each handler takes the values its contract would load or query and returns
the new state and the messages to send; its contract in `src/` states the
result for every input. Where a handler's arithmetic can overflow, a
`*_overflows` function beside it tells whether it would, so that the
contracts in `app/` stop there with a panic, as `Uint128` arithmetic does. Properties that relate several handlers are stated as
proof functions named `law_*` next to the functions they concern.
