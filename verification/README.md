# openpx

A prediction-market SDK core (Kalshi, Opinion, Limitless and a crypto price
feed) whose rules are verified with Verus.

- `src/` is the verified library: how venue JSON is read into markets,
  orders, fills, trades and book changes; the requests and bodies the
  clients send (listings, cursors, order placement and cancellation, the
  EIP-712 digest of a Limitless order); the subscription bookkeeping of each
  socket, with the subscribe commands a fresh connection sends; and the
  reconnect supervision every socket (Kalshi, Opinion and the crypto feed)
  shares. Amounts stay
  the decimal text the venues send. Calls into `serde_json`, `chrono`,
  `uuid`, `hex`, `ethers` and `reqwest`'s URL parser go through small
  trusted wrappers whose contracts say what each call gives.
- `tests/` runs the library on concrete inputs.
- `app/` is the runtime around it: HTTP and WebSocket I/O, the channels a
  socket feeds, NDJSON archival, serde forms of the library's types, and
  the floating-point arithmetic on prices and sizes.
