//! Clients that reach a node through an RPC provider, alone or together
//! with a client over the node's own database.

use vstd::prelude::*;
use std::marker::PhantomData;
use std::sync::Arc;
use crate::node_client::{NodeClientSpec, RethNodeClient, arc_clone};

verus! {

/// A client that talks to a node through the RPC provider `P` for the
/// network `N`.
pub struct EthRpcClient<P, N> {
    provider: P,
    _phantom: PhantomData<N>,
}

impl<P, N> EthRpcClient<P, N> {
    pub closed spec fn spec_provider(&self) -> P {
        self.provider
    }

    /// A client over an already connected provider.
    pub fn from_provider(provider: P) -> (r: Self)
        ensures
            r.spec_provider() == provider,
    {
        EthRpcClient { provider, _phantom: PhantomData }
    }

    /// The provider this client talks through.
    pub fn provider(&self) -> (r: &P)
        ensures
            *r == self.spec_provider(),
    {
        &self.provider
    }
}

/// A client that answers from the node's database where it can, and through
/// the RPC provider `P` otherwise.
pub struct DualRethNodeClient<Node: NodeClientSpec, P, N> {
    node_client: Arc<RethNodeClient<Node>>,
    rpc_provider: P,
    _phantom: PhantomData<N>,
}

impl<Node: NodeClientSpec, P, N> DualRethNodeClient<Node, P, N> {
    pub closed spec fn spec_node_client(&self) -> Arc<RethNodeClient<Node>> {
        self.node_client
    }

    pub closed spec fn spec_rpc_provider(&self) -> P {
        self.rpc_provider
    }

    pub fn new(node_client: Arc<RethNodeClient<Node>>, rpc_provider: P) -> (r: Self)
        ensures
            r.spec_node_client() == node_client,
            r.spec_rpc_provider() == rpc_provider,
    {
        DualRethNodeClient { node_client, rpc_provider, _phantom: PhantomData }
    }

    /// Swaps the RPC provider; the database client stays.
    pub fn replace_rpc_provider(&mut self, rpc_provider: P)
        ensures
            final(self).spec_rpc_provider() == rpc_provider,
            final(self).spec_node_client() == old(self).spec_node_client(),
    {
        self.rpc_provider = rpc_provider;
    }

    /// The database client, shared.
    pub fn node_client(&self) -> (r: Arc<RethNodeClient<Node>>)
        ensures
            r == self.spec_node_client(),
    {
        arc_clone(&self.node_client)
    }
}

impl<Node: NodeClientSpec, P: Clone, N> DualRethNodeClient<Node, P, N> {
    /// A clone of the RPC provider.
    pub fn rpc_provider(&self) -> (r: P)
        ensures
            cloned(self.spec_rpc_provider(), r),
    {
        self.rpc_provider.clone()
    }
}

} // verus!
