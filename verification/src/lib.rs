//! A verified core for reading Ethereum chain state out of a reth node's
//! database and RPC endpoints: connection selection, database path layout,
//! block addressing, and the polling state machine that drives live streams
//! of blocks and logs.

pub mod chains;
pub mod text;
pub mod primitives;
pub mod state_stream;
pub mod connection;
pub mod paths;
pub mod blocks;
pub mod node_client;
pub mod builder;
pub mod rpc;
pub mod revm_utils;
pub mod op_node;
