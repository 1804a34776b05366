# contender

The decision logic of a load generator for Ethereum-style nodes, written and
proved in Verus.

- `src/` is the verified library: what each spam tick sends (`batch_composer`),
  when the ticks fire (`timed`), how the server answers requests about its
  sessions (`server`, `session`, `spam_run`), and when accounts are topped up
  (`funding`, `amount`, `agents`). What holds over several requests is stated in
  `laws`.
- `tests/` runs the library on concrete values.
- `app/` is the network side: JSON-RPC methods, background tasks and the clock.
