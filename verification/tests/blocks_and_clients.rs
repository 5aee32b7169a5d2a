use std::sync::Arc;

use alloy_primitives::B256;
use reth_db_client::blocks::{
    block_number_by_id_plan, block_query, call_block, state_lookup, BlockId, BlockNumberOrHash, BlockNumberOrTag,
    BlockNumberPlan, BlockQuery, StateLookup,
};
use reth_db_client::connection::{ConnectionError, ConnectionTarget};
use reth_db_client::node_client::{NodeClientSpec, RethNodeClient};
use reth_db_client::op_node::SimpleOpTxInfoMapper;
use reth_db_client::revm_utils::RevmUtilError;
use reth_db_client::rpc::{DualRethNodeClient, EthRpcClient};

struct TestNode;

impl NodeClientSpec for TestNode {
    type AlloyNetwork = ();
    type NodeChainSpec = String;
    type Api = u8;
    type Filter = u16;
    type Trace = u32;
    type Debug = u64;
    type TxPool = i8;
    type DbProvider = Vec<u8>;
}

fn test_client(url: Option<&str>) -> RethNodeClient<TestNode> {
    RethNodeClient::<TestNode>::from_parts(
        1,
        2,
        3,
        4,
        5,
        vec![6, 7],
        Arc::new("mainnet".to_string()),
        url.map(|u| u.to_string()),
    )
}

#[test]
fn block_number_or_hash_conversions() {
    assert_eq!(BlockNumberOrHash::from(17u64), BlockNumberOrHash::Number(17));
    let h = B256::repeat_byte(0xab);
    assert_eq!(BlockNumberOrHash::from(h), BlockNumberOrHash::Hash(h));
    let b: BlockNumberOrHash = 5u64.into();
    assert_eq!(b, BlockNumberOrHash::Number(5));
    assert!(BlockNumberOrHash::Number(u64::MAX) < BlockNumberOrHash::Hash(B256::ZERO));
}

#[test]
fn state_is_opened_by_number_or_hash() {
    let h = B256::repeat_byte(1);
    assert_eq!(state_lookup(BlockNumberOrHash::Number(9)), StateLookup::ByNumberOrTag(BlockNumberOrTag::Number(9)));
    assert_eq!(state_lookup(BlockNumberOrHash::Hash(h)), StateLookup::ByHash(h));
}

#[test]
fn block_numbers_by_id() {
    assert_eq!(block_number_by_id_plan(BlockId::Number(BlockNumberOrTag::Number(42))), BlockNumberPlan::Known(42));
    assert_eq!(block_number_by_id_plan(BlockId::Number(BlockNumberOrTag::Latest)), BlockNumberPlan::BestBlockNumber);
    let safe = BlockId::Number(BlockNumberOrTag::Safe);
    assert_eq!(block_number_by_id_plan(safe), BlockNumberPlan::FromBlock(safe));
    let by_hash = BlockId::Hash { hash: B256::repeat_byte(2), require_canonical: Some(true) };
    assert_eq!(block_number_by_id_plan(by_hash), BlockNumberPlan::FromBlock(by_hash));
}

#[test]
fn blocks_are_fetched_by_hash_or_number() {
    let h = B256::repeat_byte(3);
    assert_eq!(block_query(BlockId::Hash { hash: h, require_canonical: None }), BlockQuery::ByHash(h));
    assert_eq!(block_query(BlockId::Number(BlockNumberOrTag::Finalized)), BlockQuery::ByNumber(BlockNumberOrTag::Finalized));
}

#[test]
fn local_calls_default_to_the_pending_block() {
    assert_eq!(call_block(None), BlockId::Number(BlockNumberOrTag::Pending));
    assert_eq!(call_block(Some(BlockId::Number(BlockNumberOrTag::Earliest))), BlockId::Number(BlockNumberOrTag::Earliest));
}

#[test]
fn node_client_hands_out_its_handlers() {
    let client = test_client(Some("ws://localhost:8546"));
    assert_eq!(client.eth_api(), 1);
    assert_eq!(client.eth_filter(), 2);
    assert_eq!(client.eth_trace(), 3);
    assert_eq!(client.eth_debug(), 4);
    assert_eq!(client.eth_tx_pool(), 5);
    assert_eq!(client.eth_db_provider(), &vec![6, 7]);
    assert_eq!(*client.chain_spec(), "mainnet");
    assert_eq!(client.connection_target(), Ok(ConnectionTarget::Ws("ws://localhost:8546".to_string())));
    assert_eq!(test_client(None).connection_target(), Err(ConnectionError::NoConnectionUrl));
}

#[test]
fn rpc_client_exposes_its_provider() {
    let client: EthRpcClient<String, ()> = EthRpcClient::from_provider("provider".to_string());
    assert_eq!(client.provider(), "provider");
}

#[test]
fn dual_client_keeps_both_sides() {
    let node = Arc::new(test_client(None));
    let mut dual: DualRethNodeClient<TestNode, String, ()> = DualRethNodeClient::new(node.clone(), "rpc-a".to_string());
    assert_eq!(dual.rpc_provider(), "rpc-a");
    dual.replace_rpc_provider("rpc-b".to_string());
    assert_eq!(dual.rpc_provider(), "rpc-b");
    assert!(Arc::ptr_eq(&dual.node_client(), &node));
    assert_eq!(dual.node_client().eth_api(), 1);
}

#[test]
fn revm_errors_keep_their_message() {
    let e = RevmUtilError::as_value("state provider closed");
    assert_eq!(e.message(), "state provider closed");
    let f: RevmUtilError = "other".to_string().into();
    assert_eq!(f.0, "other");
    assert_eq!(RevmUtilError::as_value(42u64).message(), "42");
}

#[test]
fn op_tx_info_mapper_is_a_plain_value() {
    let m = SimpleOpTxInfoMapper::default();
    let n = m;
    assert_eq!(format!("{:?}", n), "SimpleOpTxInfoMapper");
}
