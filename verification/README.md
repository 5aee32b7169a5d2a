# reth_db_client

A library for reading Ethereum chain state from a reth node, through its
database and its RPC endpoints.

- `src/` is the verified library (Verus). It holds the decisions and data
  transformations: which transport reaches a node (`connection`), where a
  node keeps its database and static files (`paths`, `builder`), how blocks
  are named and requests about them answered (`blocks`), the polling state
  machine of live block and log streams and the assembly of a block's logs
  from its receipts (`state_stream`), the supported chains and their poll
  intervals (`chains`), and the client containers (`node_client`, `rpc`).
- `app/` is ordinary Rust around it: connecting with `alloy-provider`,
  `eth_subscribe` streams, the tokio tasks that run live streams, directory
  checks on disk, and conversions to and from alloy types.
- `tests/` exercises the library on concrete values.
