# pool_seeker

A listener for Uniswap V2/V3/V4 pool events on an EVM chain, built around a
Verus-verified core.

- `src/` is the verified library: the known pool events and their topics,
  the topic table, which logs are decoded or forwarded and as what, the
  subscription filters and targets, the answer of a subscription stream to a
  poll, and the steps of the listening loops. Keccak-256 and hex address
  parsing come from `alloy-primitives` through two trusted wrappers in
  `src/bytes.rs`.
- `app/` is the program around it: websocket connection and subscriptions
  (`alloy-pubsub`, `alloy-transport-ws`), ABI decoding of logs with the
  Solidity event types, stream plumbing and printing.
- `tests/` exercises the library on concrete values.
