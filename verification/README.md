# trader_bot

A portfolio-rebalancing trading bot: domain types (money, positions, wallets, orders,
trades, allocations), the rebalancing calculator and plan, a holding strategy, a simulated
market and exchange, broker adapters, and configuration (naming conventions, lenv files,
Links Notation, command-line settings).

## Layout

- `src/` is the library, written in Verus: every function carries a `requires`/`ensures`
  contract over mathematical views (`Seq`, `Map`-like association lists, `int`), and the
  public proof functions state the laws the library keeps (orders never fill beyond their
  quantity, sorted diffs are a permutation in priority order, what a placed order stores is
  what a lookup returns, and so on). Decimal arithmetic, clock reads and identifiers are
  done by `rust_decimal`, `chrono` and `uuid` behind small trusted wrappers whose contracts
  name their results.
- `tests/` exercises the library, including end-to-end rebalancing runs on the simulator.
- `app/` is the program around the library: command-line parsing, file and environment
  access, JSON configuration, the asynchronous engine loop that waits between orders, and
  logging.
