use alloy_primitives::{Address, Bytes, Log, B256};
use reth_db_client::chains::SupportedChains;
use reth_db_client::state_stream::{
    get_latest_block, latest_logs_header_step, latest_logs_receipts_step, needs_restart, should_poll,
    stream_poll_interval_ms, BlockHeaderInfo, LiveStateStreamError, LogsStep, PollAction, StreamCursor,
    DEFAULT_CHANNEL_CAPACITY,
};

fn log(addr: u8, topic: u8) -> Log {
    Log::new_unchecked(Address::repeat_byte(addr), vec![B256::repeat_byte(topic)], Bytes::from(vec![addr, topic]))
}

fn header() -> BlockHeaderInfo {
    BlockHeaderInfo { hash: B256::repeat_byte(0x11), timestamp: 1_700_000_000 }
}

#[test]
fn error_messages() {
    assert_eq!(LiveStateStreamError::NoData.message(), "data store disconnected");
    assert_eq!(
        LiveStateStreamError::FailedToFetchBestBlock("db closed".to_string()).message(),
        "failed to fetch best block: db closed"
    );
    assert_eq!(
        LiveStateStreamError::FailedToGetData(21_000_000, "missing".to_string()).message(),
        "failed to fetch data for best block, 21000000, missing"
    );
    assert_eq!(LiveStateStreamError::StreamError("lagged".to_string()).message(), "stream error: lagged");
}

#[test]
fn streams_restart_only_when_absent_or_finished() {
    assert!(needs_restart(None));
    assert!(needs_restart(Some(true)));
    assert!(!needs_restart(Some(false)));
}

#[test]
fn polling_needs_listeners() {
    assert!(!should_poll(0));
    assert!(should_poll(1));
    assert!(should_poll(1000));
    assert_eq!(stream_poll_interval_ms(SupportedChains::Base), 100);
    assert_eq!(DEFAULT_CHANNEL_CAPACITY, 1024);
}

#[test]
fn cursor_sends_each_new_best_block_once() {
    let mut cursor = StreamCursor::new();
    assert_eq!(cursor.last_block(), None);
    assert!(matches!(cursor.on_best_block(Ok(10)), PollAction::Fetch(10)));
    assert_eq!(cursor.last_block(), Some(10));
    assert!(matches!(cursor.on_best_block(Ok(10)), PollAction::Wait));
    match cursor.on_best_block(Err("io".to_string())) {
        PollAction::ReportError(LiveStateStreamError::FailedToFetchBestBlock(m)) => assert_eq!(m, "io"),
        other => panic!("unexpected {:?}", other),
    }
    assert_eq!(cursor.last_block(), Some(10));
    assert!(matches!(cursor.on_best_block(Ok(10)), PollAction::Wait));
    assert!(matches!(cursor.on_best_block(Ok(12)), PollAction::Fetch(12)));
    // a reorg to a lower block is sent as well
    assert!(matches!(cursor.on_best_block(Ok(11)), PollAction::Fetch(11)));
    assert_eq!(cursor.last_block(), Some(11));
}

#[test]
fn header_step_of_log_lookup() {
    match latest_logs_header_step(5, Err("boom".to_string())) {
        LogsStep::Finished(Err(LiveStateStreamError::FailedToGetData(5, m))) => assert_eq!(m, "boom"),
        other => panic!("unexpected {:?}", other),
    }
    match latest_logs_header_step(5, Ok(None)) {
        LogsStep::Finished(Ok(v)) => assert!(v.is_empty()),
        other => panic!("unexpected {:?}", other),
    }
    match latest_logs_header_step(5, Ok(Some(header()))) {
        LogsStep::ReadReceipts(h) => {
            assert_eq!(h.hash, header().hash);
            assert_eq!(h.timestamp, header().timestamp);
        }
        other => panic!("unexpected {:?}", other),
    }
}

#[test]
fn logs_are_indexed_within_their_receipt() {
    let receipts = vec![vec![log(1, 1), log(1, 2)], vec![], vec![log(3, 3)]];
    let logs = latest_logs_receipts_step(77, &header(), Ok(Some(receipts))).unwrap();
    assert_eq!(logs.len(), 3);
    assert_eq!(logs[0].inner, log(1, 1));
    assert_eq!(logs[1].inner, log(1, 2));
    assert_eq!(logs[2].inner, log(3, 3));
    assert_eq!(logs.iter().map(|l| l.log_index).collect::<Vec<_>>(), vec![Some(0), Some(1), Some(0)]);
    for l in &logs {
        assert_eq!(l.block_hash, Some(B256::repeat_byte(0x11)));
        assert_eq!(l.block_number, Some(77));
        assert_eq!(l.block_timestamp, Some(1_700_000_000));
        assert_eq!(l.transaction_hash, None);
        assert_eq!(l.transaction_index, None);
        assert!(!l.removed);
    }
}

#[test]
fn receipts_step_errors_and_absence() {
    match latest_logs_receipts_step(9, &header(), Err("gone".to_string())) {
        Err(LiveStateStreamError::FailedToGetData(9, m)) => assert_eq!(m, "gone"),
        other => panic!("unexpected {:?}", other),
    }
    assert!(latest_logs_receipts_step(9, &header(), Ok(None)).unwrap().is_empty());
    assert!(latest_logs_receipts_step(9, &header(), Ok(Some(vec![]))).unwrap().is_empty());
}

#[test]
fn latest_block_errors_name_the_block() {
    assert_eq!(get_latest_block(3, Ok(Some("block"))).unwrap(), Some("block"));
    assert_eq!(get_latest_block::<u8>(3, Ok(None)).unwrap(), None);
    match get_latest_block::<u8>(3, Err("x".to_string())) {
        Err(LiveStateStreamError::FailedToGetData(3, m)) => assert_eq!(m, "x"),
        other => panic!("unexpected {:?}", other),
    }
}
