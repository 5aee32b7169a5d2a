use reth_db_client::chains::SupportedChains;
use reth_db_client::text::{str_contains, str_ends_with, str_starts_with, u64_to_decimal, chars_of, concat_str};

#[test]
fn chain_ids_map_to_chains() {
    assert_eq!(SupportedChains::from_chain_id(1), Some(SupportedChains::Mainnet));
    assert_eq!(SupportedChains::from_chain_id(130), Some(SupportedChains::Unichain));
    assert_eq!(SupportedChains::from_chain_id(8453), Some(SupportedChains::Base));
    assert_eq!(SupportedChains::from_chain_id(11155111), Some(SupportedChains::Sepolia));
    assert_eq!(SupportedChains::from_chain_id(10), None);
    assert_eq!(SupportedChains::from_chain_id(0), None);
}

#[test]
fn poll_times_per_chain() {
    assert_eq!(SupportedChains::Mainnet.get_default_poll_time_ms_for_chain(), 500);
    assert_eq!(SupportedChains::Base.get_default_poll_time_ms_for_chain(), 100);
    assert_eq!(SupportedChains::Unichain.get_default_poll_time_ms_for_chain(), 75);
    assert_eq!(SupportedChains::Sepolia.get_default_poll_time_ms_for_chain(), 500);
    assert_eq!(SupportedChains::get_default_poll_time_ms_for_chain_id(8453), 100);
    assert_eq!(SupportedChains::get_default_poll_time_ms_for_chain_id(130), 75);
}

#[test]
fn chain_id_round_trip_on_concrete_chains() {
    for (id, chain) in [
        (1u64, SupportedChains::Mainnet),
        (8453, SupportedChains::Base),
        (130, SupportedChains::Unichain),
        (11155111, SupportedChains::Sepolia),
    ] {
        assert_eq!(SupportedChains::from_chain_id(id), Some(chain));
    }
}

#[test]
fn decimal_formatting() {
    assert_eq!(u64_to_decimal(0), "0");
    assert_eq!(u64_to_decimal(7), "7");
    assert_eq!(u64_to_decimal(10), "10");
    assert_eq!(u64_to_decimal(1234567890), "1234567890");
    assert_eq!(u64_to_decimal(u64::MAX), u64::MAX.to_string());
}

#[test]
fn string_predicates() {
    assert!(str_starts_with("ws://localhost", "ws:"));
    assert!(!str_starts_with("w", "ws:"));
    assert!(str_starts_with("anything", ""));
    assert!(str_ends_with("/tmp/reth.ipc", ".ipc"));
    assert!(!str_ends_with("/tmp/reth.ipc2", ".ipc"));
    assert!(!str_ends_with("ipc", ".ipc"));
    assert!(str_contains("node+wss://host", "wss:"));
    assert!(!str_contains("node+ws://host", "wss:"));
    assert!(str_contains("", ""));
    assert!(!str_contains("", "a"));
    assert!(str_contains("aaab", "ab"));
}

#[test]
fn characters_and_concatenation() {
    assert_eq!(chars_of("héllo"), vec!['h', 'é', 'l', 'l', 'o']);
    assert_eq!(concat_str("ab", "cd"), "abcd");
    assert_eq!(concat_str("", ""), "");
}
