# option_contract

The logic of an on-chain venue for options, perpetual positions and dated futures
on SOL against USDC, verified with Verus.

Each instruction of the venue is a function from the accounts it reads and writes
(plain structs in `src/state.rs`) and the values it is given to a result and the
accounts after. Its contract states the exact result, every error and when it
comes, and that a failing instruction changes nothing.

## Layout

- `src/math.rs`: checked integer arithmetic, decimal scaling, fixed-point helpers.
- `src/convert.rs`: proportional shares, oracle prices, dollars to token units.
- `src/perp.rs`: perpetual positions (open, close, liquidate, size and collateral
  changes, limit orders, take-profit and stop-loss execution).
- `src/futures.rs`: dated futures (open, limit orders, early close, settlement,
  claims).
- `src/orders.rs`: take-profit and stop-loss order books and their management.
- `src/options.rs`: options bought from the pool (open, edit, close, exercise,
  claim, take-profit and stop-loss prices).
- `src/registry.rs`: the contract's pools and each pool's tokens.
- `src/liquidity.rs`: LP deposits and redemptions, LP token name and symbol.
- `src/vault.rs`: a single SOL/USDC vault with options written against it.
- `src/laws.rs`: properties that relate several operations.
- `app/`: the floating-point pricing glue that turns model outputs into the
  integer quotes the instructions take.

Amounts in dollars carry six decimals; prices from oracles carry their own
exponent.
