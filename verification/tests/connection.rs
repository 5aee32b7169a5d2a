use reth_db_client::connection::{connection_target, connection_target_for, parse_rpc_url, ConnectionError, ConnectionTarget};

#[test]
fn ipc_paths_are_ipc_targets() {
    assert_eq!(connection_target("/tmp/reth.ipc"), Ok(ConnectionTarget::Ipc("/tmp/reth.ipc".to_string())));
    // the IPC test comes first, whatever else the string holds
    assert_eq!(connection_target("http://host/reth.ipc"), Ok(ConnectionTarget::Ipc("http://host/reth.ipc".to_string())));
}

#[test]
fn websocket_urls_are_ws_targets() {
    assert_eq!(connection_target("ws://localhost:8546"), Ok(ConnectionTarget::Ws("ws://localhost:8546".to_string())));
    assert_eq!(connection_target("wss://node.example"), Ok(ConnectionTarget::Ws("wss://node.example".to_string())));
    // the WebSocket test comes before the HTTP test
    assert_eq!(connection_target("https+wss://x"), Ok(ConnectionTarget::Ws("https+wss://x".to_string())));
}

#[test]
fn http_urls_are_parsed_and_normalized() {
    assert_eq!(
        connection_target("http://localhost:8545"),
        Ok(ConnectionTarget::Http("http://localhost:8545/".to_string()))
    );
    assert_eq!(
        connection_target("HTTPS://Example.COM/rpc"),
        Ok(ConnectionTarget::Other("HTTPS://Example.COM/rpc".to_string()))
    );
    assert_eq!(
        connection_target("https://Example.COM/rpc"),
        Ok(ConnectionTarget::Http("https://example.com/rpc".to_string()))
    );
}

#[test]
fn invalid_http_url_is_an_error() {
    assert_eq!(
        connection_target("http://[::1"),
        Err(ConnectionError::InvalidUrl(url::ParseError::InvalidIpv6Address))
    );
}

#[test]
fn other_strings_go_to_the_generic_connector() {
    assert_eq!(connection_target("localhost:8545"), Ok(ConnectionTarget::Other("localhost:8545".to_string())));
    assert_eq!(connection_target(""), Ok(ConnectionTarget::Other(String::new())));
}

#[test]
fn no_url_means_no_connection() {
    assert_eq!(connection_target_for(&None), Err(ConnectionError::NoConnectionUrl));
    assert_eq!(
        ConnectionError::NoConnectionUrl.message(),
        Some("no ipc path or rpc url has been set".to_string())
    );
    assert_eq!(ConnectionError::InvalidUrl(url::ParseError::EmptyHost).message(), None);
    assert_eq!(
        connection_target_for(&Some("/tmp/mainnet/reth.ipc".to_string())),
        Ok(ConnectionTarget::Ipc("/tmp/mainnet/reth.ipc".to_string()))
    );
}

#[test]
fn rpc_urls_are_normalized() {
    assert_eq!(parse_rpc_url("http://127.0.0.1:8545"), Ok("http://127.0.0.1:8545/".to_string()));
    assert_eq!(parse_rpc_url("not a url"), Err(ConnectionError::InvalidUrl(url::ParseError::RelativeUrlWithoutBase)));
}
