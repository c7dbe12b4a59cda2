# gridbot

A grid trading bot for Solana tokens, with its decisions proved correct
against their contracts.

For each token in its configuration the bot asks the Jupiter swap API for a
quote, remembers the lowest and highest prices it has seen, and trades when the
price has moved far enough from them: it buys once the price has risen above
the lowest price by more than the token's range, and sells once it has fallen
below the highest price by more than the range. A signal is confirmed by a
second quote before a trade is sent, and a trade is tried up to five times.

## Layout

- `src/` — the verified library.
  - `wide.rs`, `ratio.rs`: exact arithmetic. Prices and ranges are signed
    ratios of 64-bit integers, and every comparison the strategy makes is
    decided exactly, on products of up to 256 bits.
  - `json_config.rs`: the configuration, the balances read from the wallet,
    and when the configuration file is rewritten.
  - `api_jupiter.rs`: quote requests and the parts of a quote the bot reads;
    token addresses are decoded by `solana_program`; the swap service's
    transaction is read, given its blockhash and signed with `solana_sdk`.
  - `grid.rs`: the strategy: remembered prices and buy and sell signals.
  - `trade.rs`: what a trade that went through, or failed for good, does to an entry.
  - `engine.rs`: one token's cycle (quote, confirmation, trades, settlement)
    and the main loop's pass over the tokens, as state machines.
  - `types.rs`, `bot.rs`: the token monitor.
- `app/` — the program around the library: files, the Jupiter API, the Solana
  cluster, the database, Discord, and the conversion of the configuration
  file's floating-point numbers to ratios.
- `tests/` — tests of the library.
