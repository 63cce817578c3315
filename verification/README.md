# exponent_amm

Verified core of a Jupiter AMM adapter for Exponent PT/SY markets.

`src/` (verified with Verus):

- `math` – exact liquidity arithmetic (`add_liquidity`, `rm_liquidity`, `lp_to_sy`,
  `lp_proportion`) and its laws: a deposit never takes more than intended, a
  withdrawal never pays out more than the pool holds, and depositing then
  withdrawing never returns more than was deposited.
- `number` – twelve-digit fixed-point numbers with exact, overflow-checked
  products and quotients.
- `market`, `market_account` – the market model, seconds to expiry, asset
  balance and the SY/PT conversions with their rounding laws, and the reader of
  the market account (discriminator and Borsh record).
- `vault` – the yield-stripping vault's data.
- `cpi_common` – merging of CPI account contexts by lookup-table index and their
  resolution into account references.
- `jito_vault`, `fund_account` – readers of the account layouts that price SY.
- `stake_pool`, `lookup_table` – the stake pool balance and lookup table
  addresses, decoded by the SPL stake pool and address lookup table crates.
- `instructions`, `amm`, `addresses` – account lists of trades and SY
  mint/redeem calls, the known markets, SY exchange rates, the AMM's state and
  its updates, and swap account assembly.

`app/` holds the parts that stay ordinary Rust: the `Amm` trait implementation,
account fetching, the clock, and the floating-point curve (`trade`,
`trade_asset`, rate scalar, rate anchor, fee rate).
