# zeta_abi

The data types of the Zeta perpetuals exchange's accounts (their fields; the packed
on-chain memory layout is not reproduced) and its margin and profit-and-loss
arithmetic, written in Verus with their behaviour stated as contracts and proved.

- `src/account.rs`: account structs and enums; strike lookup, position size and
  unrealized PnL, initial and maintenance margin of a product ledger, asset
  decoding, the exchange's asset numbers, tickers and multipliers.
- `src/constants.rs`, `src/errors.rs`: layout constants and the error type.
- `src/laws.rs`: properties that span calls (PnL of opposite sides, PnL against the
  mark price, asset encoding round trip, monotonicity of the margins).
- `app/lib.rs`: Borsh-serializable copies of the enums with the exchange's
  discriminants, converting to and from the library's enums.
- `tests/`: tests on concrete values.

The margin functions take the per-lot margins as arguments; `Product::margin_strike`
gives the strike those per-lot margins are computed with.
