//! A client over the RPC handlers that a reth node builds on its database,
//! generic over the node flavour that fixes their types.

use vstd::prelude::*;
use std::sync::Arc;
use crate::connection::{ConnectionError, ConnectionTarget, connection_target_for, spec_target_for};

verus! {

/// The types of the handlers that a node flavour (Ethereum, Optimism, ...)
/// builds over its database.
pub trait NodeClientSpec {
    /// The network description used when connecting to the node over RPC.
    type AlloyNetwork;
    /// The chain specification of the node.
    type NodeChainSpec;
    /// The `eth_` namespace handler.
    type Api: Clone;
    /// The filter handler.
    type Filter: Clone;
    /// The `trace_` namespace handler.
    type Trace: Clone;
    /// The `debug_` namespace handler.
    type Debug: Clone;
    /// The transaction pool.
    type TxPool: Clone;
    /// The database provider.
    type DbProvider;
}

/// Calls `Arc::clone`, which makes another pointer to the same allocation;
/// claims that the clone holds the same value.
#[verifier::external_body]
pub(crate) fn arc_clone<T>(a: &Arc<T>) -> (r: Arc<T>)
    ensures
        r == *a,
{
    Arc::clone(a)
}

/// The handlers of a node built over its database, the node's chain
/// specification, and the IPC path or RPC URL at which the running node
/// answers, if any.
pub struct RethNodeClient<N: NodeClientSpec> {
    api: N::Api,
    filter: N::Filter,
    trace: N::Trace,
    debug: N::Debug,
    tx_pool: N::TxPool,
    db_provider: N::DbProvider,
    chain_spec: Arc<N::NodeChainSpec>,
    ipc_path_or_rpc_url: Option<String>,
}

impl<N: NodeClientSpec> RethNodeClient<N> {
    pub closed spec fn spec_api(&self) -> N::Api {
        self.api
    }

    pub closed spec fn spec_filter(&self) -> N::Filter {
        self.filter
    }

    pub closed spec fn spec_trace(&self) -> N::Trace {
        self.trace
    }

    pub closed spec fn spec_debug(&self) -> N::Debug {
        self.debug
    }

    pub closed spec fn spec_tx_pool(&self) -> N::TxPool {
        self.tx_pool
    }

    pub closed spec fn spec_db_provider(&self) -> N::DbProvider {
        self.db_provider
    }

    pub closed spec fn spec_chain_spec(&self) -> Arc<N::NodeChainSpec> {
        self.chain_spec
    }

    pub closed spec fn spec_connection_url(&self) -> Option<String> {
        self.ipc_path_or_rpc_url
    }

    /// Gathers the handlers that a node flavour has built.
    pub fn from_parts(
        api: N::Api,
        filter: N::Filter,
        trace: N::Trace,
        debug: N::Debug,
        tx_pool: N::TxPool,
        db_provider: N::DbProvider,
        chain_spec: Arc<N::NodeChainSpec>,
        ipc_path_or_rpc_url: Option<String>,
    ) -> (r: Self)
        ensures
            r.spec_api() == api,
            r.spec_filter() == filter,
            r.spec_trace() == trace,
            r.spec_debug() == debug,
            r.spec_tx_pool() == tx_pool,
            r.spec_db_provider() == db_provider,
            r.spec_chain_spec() == chain_spec,
            r.spec_connection_url() == ipc_path_or_rpc_url,
    {
        RethNodeClient { api, filter, trace, debug, tx_pool, db_provider, chain_spec, ipc_path_or_rpc_url }
    }

    /// The node's chain specification, shared.
    pub fn chain_spec(&self) -> (r: Arc<N::NodeChainSpec>)
        ensures
            r == self.spec_chain_spec(),
    {
        arc_clone(&self.chain_spec)
    }

    pub fn eth_api(&self) -> (r: N::Api)
        ensures
            cloned(self.spec_api(), r),
    {
        self.api.clone()
    }

    pub fn eth_filter(&self) -> (r: N::Filter)
        ensures
            cloned(self.spec_filter(), r),
    {
        self.filter.clone()
    }

    pub fn eth_trace(&self) -> (r: N::Trace)
        ensures
            cloned(self.spec_trace(), r),
    {
        self.trace.clone()
    }

    pub fn eth_debug(&self) -> (r: N::Debug)
        ensures
            cloned(self.spec_debug(), r),
    {
        self.debug.clone()
    }

    pub fn eth_tx_pool(&self) -> (r: N::TxPool)
        ensures
            cloned(self.spec_tx_pool(), r),
    {
        self.tx_pool.clone()
    }

    pub fn eth_db_provider(&self) -> (r: &N::DbProvider)
        ensures
            *r == self.spec_db_provider(),
    {
        &self.db_provider
    }

    /// How the running node is to be reached for subscriptions: through the
    /// IPC path or RPC URL the client was given.
    pub fn connection_target(&self) -> (r: Result<ConnectionTarget, ConnectionError>)
        ensures
            match self.spec_connection_url() {
                None => r == Err::<ConnectionTarget, _>(ConnectionError::NoConnectionUrl),
                Some(u) => spec_target_for(u@, r),
            },
    {
        connection_target_for(&self.ipc_path_or_rpc_url)
    }
}

} // verus!
