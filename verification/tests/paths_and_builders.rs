use std::sync::Arc;

use reth_db_client::builder::{RethLibmdbxClientBuilder, RethNodeClientBuilder};
use reth_db_client::node_client::NodeClientSpec;
use reth_db_client::paths::{check_node_subdirectories, join_relative, node_subdirectories, static_files_beside, DbPathError};

struct TestNode;

impl NodeClientSpec for TestNode {
    type AlloyNetwork = ();
    type NodeChainSpec = String;
    type Api = u8;
    type Filter = u16;
    type Trace = u32;
    type Debug = u64;
    type TxPool = i8;
    type DbProvider = Vec<u8>;
}

#[test]
fn joining_relative_paths() {
    assert_eq!(join_relative("/var/lib/eth/mainnet/reth/", "db"), "/var/lib/eth/mainnet/reth/db");
    assert_eq!(join_relative("/var/lib/eth/mainnet/reth", "db"), "/var/lib/eth/mainnet/reth/db");
    assert_eq!(join_relative("", "db"), "db");
    assert_eq!(join_relative("data", "static_files"), "data/static_files");
    for base in ["/var/lib/eth/base/reth/", "x", "", "/"] {
        let expected = std::path::Path::new(base).join("db");
        assert_eq!(join_relative(base, "db"), expected.to_str().unwrap());
    }
}

#[test]
fn node_data_directory_layout() {
    let (db, static_files) = node_subdirectories("/var/lib/eth/base/reth/");
    assert_eq!(db, "/var/lib/eth/base/reth/db");
    assert_eq!(static_files, "/var/lib/eth/base/reth/static_files");
    assert_ne!(db, static_files);
}

#[test]
fn missing_subdirectories_are_reported_in_order() {
    assert_eq!(
        check_node_subdirectories("/data", false, false),
        Err(DbPathError::MissingDb("/data".to_string()))
    );
    assert_eq!(
        check_node_subdirectories("/data", false, true),
        Err(DbPathError::MissingDb("/data".to_string()))
    );
    assert_eq!(
        check_node_subdirectories("/data", true, false),
        Err(DbPathError::MissingStaticFiles("/data".to_string()))
    );
    assert_eq!(
        check_node_subdirectories("/data", true, true),
        Ok(("/data/db".to_string(), "/data/static_files".to_string()))
    );
}

#[test]
fn path_error_messages() {
    assert_eq!(
        DbPathError::MissingDb("/var/lib/eth".to_string()).message(),
        "no 'db' subdirectory found in directory '\"/var/lib/eth\"'"
    );
    assert_eq!(
        DbPathError::MissingStaticFiles("/var/lib/eth".to_string()).message(),
        "no 'static_files' subdirectory found in directory '\"/var/lib/eth\"'"
    );
}

#[test]
fn static_files_lie_beside_the_database() {
    assert_eq!(static_files_beside("/home/data/reth/db"), "/home/data/reth/static_files");
    assert_eq!(static_files_beside("/home/data/reth/db/"), "/home/data/reth/static_files");
    assert_eq!(static_files_beside("db"), "static_files");
    assert_eq!(static_files_beside("/"), "/static_files");
    assert_eq!(static_files_beside(""), "static_files");
}

#[test]
fn node_builder_plans_its_build() {
    let builder = RethNodeClientBuilder::<TestNode, u32>::new(
        "/var/lib/eth/mainnet/reth/",
        1000,
        Arc::new("mainnet".to_string()),
        Some("/tmp/mainnet/reth.ipc".to_string()),
    );
    let (db, static_files) = builder.candidate_db_paths();
    assert_eq!(db, "/var/lib/eth/mainnet/reth/db");
    assert_eq!(static_files, "/var/lib/eth/mainnet/reth/static_files");
    assert_eq!(
        builder.db_paths(true, false),
        Err(DbPathError::MissingStaticFiles("/var/lib/eth/mainnet/reth/".to_string()))
    );
    let plan = builder.with_db_args(7).build_plan(true, true).ok().unwrap();
    assert_eq!(plan.db_path, "/var/lib/eth/mainnet/reth/db");
    assert_eq!(plan.static_files_path, "/var/lib/eth/mainnet/reth/static_files");
    assert_eq!(plan.db_args, Some(7));
    assert_eq!(plan.max_tasks, 1000);
    assert_eq!(*plan.chain, "mainnet");
    assert_eq!(plan.ipc_path_or_rpc_url, Some("/tmp/mainnet/reth.ipc".to_string()));
}

#[test]
fn node_builder_without_database() {
    let builder = RethNodeClientBuilder::<TestNode, u32>::new("/nowhere", 1, Arc::new(String::new()), None);
    match builder.build_plan(false, true) {
        Err(e) => assert_eq!(e, DbPathError::MissingDb("/nowhere".to_string())),
        Ok(_) => panic!("a missing database must be reported"),
    }
}

#[test]
fn legacy_builder_plans_its_build() {
    let builder = RethLibmdbxClientBuilder::<u32>::new("/home/data/reth/db", 1000);
    assert_eq!(builder.static_files_path(), "/home/data/reth/static_files");
    let plan = builder.build_plan();
    assert_eq!(plan.db_path, "/home/data/reth/db");
    assert_eq!(plan.static_files_path, "/home/data/reth/static_files");
    assert_eq!(plan.db_args, None);
    assert_eq!(plan.max_tasks, 1000);
    let plan = RethLibmdbxClientBuilder::<u32>::new("db", 3).with_db_args(9).build_plan();
    assert_eq!(plan.static_files_path, "static_files");
    assert_eq!(plan.db_args, Some(9));
}
