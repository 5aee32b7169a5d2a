//! Ways of naming a block, and how each request about a block is answered:
//! from the block id alone, from the node's best block number, or by looking
//! the block up.

use vstd::prelude::*;
use alloy_primitives::B256;

verus! {

/// A block named by its number or by its hash.
#[derive(Debug, Clone, Copy, Hash, PartialEq, Eq, PartialOrd, Ord)]
pub enum BlockNumberOrHash {
    Number(u64),
    Hash(B256),
}

impl From<u64> for BlockNumberOrHash {
    fn from(value: u64) -> (r: Self)
        ensures
            r == BlockNumberOrHash::Number(value),
    {
        BlockNumberOrHash::Number(value)
    }
}

impl vstd::std_specs::convert::FromSpecImpl<u64> for BlockNumberOrHash {
    open spec fn obeys_from_spec() -> bool {
        true
    }

    open spec fn from_spec(v: u64) -> Self {
        BlockNumberOrHash::Number(v)
    }
}

impl From<B256> for BlockNumberOrHash {
    fn from(value: B256) -> (r: Self)
        ensures
            r == BlockNumberOrHash::Hash(value),
    {
        BlockNumberOrHash::Hash(value)
    }
}

impl vstd::std_specs::convert::FromSpecImpl<B256> for BlockNumberOrHash {
    open spec fn obeys_from_spec() -> bool {
        true
    }

    open spec fn from_spec(v: B256) -> Self {
        BlockNumberOrHash::Hash(v)
    }
}

/// A block number, or a tag for a block that moves with the chain.
#[derive(Debug, Clone, Copy, PartialEq, Eq, Hash)]
pub enum BlockNumberOrTag {
    Latest,
    Finalized,
    Safe,
    Earliest,
    Pending,
    Number(u64),
}

/// A block named by hash (possibly required to be canonical), by number or by tag.
#[derive(Debug, Clone, Copy, PartialEq, Eq, Hash)]
pub enum BlockId {
    Hash { hash: B256, require_canonical: Option<bool> },
    Number(BlockNumberOrTag),
}

/// How the state at a block is opened from the database.
#[derive(Debug, Clone, Copy, PartialEq, Eq)]
pub enum StateLookup {
    ByNumberOrTag(BlockNumberOrTag),
    ByHash(B256),
}

/// The state lookup for a block: a number is read as that block number, a
/// hash as that block hash.
pub fn state_lookup(block: BlockNumberOrHash) -> (r: StateLookup)
    ensures
        match block {
            BlockNumberOrHash::Number(n) => r == StateLookup::ByNumberOrTag(
                BlockNumberOrTag::Number(n),
            ),
            BlockNumberOrHash::Hash(h) => r == StateLookup::ByHash(h),
        },
{
    match block {
        BlockNumberOrHash::Number(n) => StateLookup::ByNumberOrTag(BlockNumberOrTag::Number(n)),
        BlockNumberOrHash::Hash(h) => StateLookup::ByHash(h),
    }
}

/// How the number of a block named by an id is found.
#[derive(Debug, Clone, Copy, PartialEq, Eq)]
pub enum BlockNumberPlan {
    /// The id holds the number itself.
    Known(u64),
    /// The id is `latest`: the answer is the node's best block number.
    BestBlockNumber,
    /// The block must be looked up; its header holds the number.
    FromBlock(BlockId),
}

/// How the number of the block named by `id` is found: an explicit number is
/// the answer, `latest` asks for the best block number, and anything else
/// looks the block up.
pub open spec fn spec_block_number_plan(id: BlockId) -> BlockNumberPlan {
    match id {
        BlockId::Number(BlockNumberOrTag::Number(n)) => BlockNumberPlan::Known(n),
        BlockId::Number(BlockNumberOrTag::Latest) => BlockNumberPlan::BestBlockNumber,
        _ => BlockNumberPlan::FromBlock(id),
    }
}

/// How `get_block_number_by_id` answers for `id`.
pub fn block_number_by_id_plan(id: BlockId) -> (r: BlockNumberPlan)
    ensures
        r == spec_block_number_plan(id),
        (r == BlockNumberPlan::BestBlockNumber) <==> id == BlockId::Number(BlockNumberOrTag::Latest),
        forall|n: u64|
            (r == BlockNumberPlan::Known(n)) <==> id == BlockId::Number(BlockNumberOrTag::Number(n)),
        r is FromBlock ==> r == BlockNumberPlan::FromBlock(id),
{
    match id {
        BlockId::Number(BlockNumberOrTag::Number(n)) => BlockNumberPlan::Known(n),
        BlockId::Number(BlockNumberOrTag::Latest) => BlockNumberPlan::BestBlockNumber,
        _ => BlockNumberPlan::FromBlock(id),
    }
}

/// Which lookup answers a request for a whole block.
#[derive(Debug, Clone, Copy, PartialEq, Eq)]
pub enum BlockQuery {
    ByHash(B256),
    ByNumber(BlockNumberOrTag),
}

/// A block named by hash is looked up by hash; any other by number or tag.
pub fn block_query(id: BlockId) -> (r: BlockQuery)
    ensures
        r == spec_block_query(id),
        match id {
            BlockId::Hash { hash, .. } => r == BlockQuery::ByHash(hash),
            BlockId::Number(n) => r == BlockQuery::ByNumber(n),
        },
{
    match id {
        BlockId::Hash { hash, .. } => BlockQuery::ByHash(hash),
        BlockId::Number(n) => BlockQuery::ByNumber(n),
    }
}

/// The block a local call runs against: the requested one, or the pending
/// block when none was requested.
pub fn call_block(requested: Option<BlockId>) -> (r: BlockId)
    ensures
        match requested {
            Some(b) => r == b,
            None => r == BlockId::Number(BlockNumberOrTag::Pending),
        },
{
    match requested {
        Some(b) => b,
        None => BlockId::Number(BlockNumberOrTag::Pending),
    }
}

/// An id that names a block number explicitly is answered without asking the
/// node, and with that very number; no other id is.
pub proof fn lemma_explicit_numbers_need_no_lookup(id: BlockId, n: u64)
    ensures
        (spec_block_number_plan(id) == BlockNumberPlan::Known(n)) <==> id == BlockId::Number(
            BlockNumberOrTag::Number(n),
        ),
        spec_block_number_plan(id) is FromBlock ==> spec_block_number_plan(id)
            == BlockNumberPlan::FromBlock(id),
{
}

/// Only `latest` is answered with the node's best block number; every id
/// that is neither an explicit number nor `latest` (a hash, `finalized`,
/// `safe`, `earliest`, `pending`) is answered by looking that very block up.
pub proof fn lemma_block_number_plan_cases(id: BlockId)
    ensures
        (spec_block_number_plan(id) == BlockNumberPlan::BestBlockNumber) <==> id == BlockId::Number(
            BlockNumberOrTag::Latest,
        ),
        (forall|n: u64| id != BlockId::Number(BlockNumberOrTag::Number(n))) && id != BlockId::Number(
            BlockNumberOrTag::Latest,
        ) ==> spec_block_number_plan(id) == BlockNumberPlan::FromBlock(id),
        spec_block_number_plan(BlockId::Number(BlockNumberOrTag::Finalized))
            == BlockNumberPlan::FromBlock(BlockId::Number(BlockNumberOrTag::Finalized)),
{
    if (forall|n: u64| id != BlockId::Number(BlockNumberOrTag::Number(n))) && id != BlockId::Number(
        BlockNumberOrTag::Latest,
    ) {
        match id {
            BlockId::Number(BlockNumberOrTag::Number(m)) => {
                assert(id == BlockId::Number(BlockNumberOrTag::Number(m)));
            },
            _ => {},
        }
    }
}

/// A block named by hash is fetched by that hash, and one named by number or
/// tag by that number or tag: the request never changes which block is meant.
pub proof fn lemma_block_query_keeps_the_block(id: BlockId, hash: B256, canonical: Option<bool>, tag: BlockNumberOrTag)
    ensures
        id == (BlockId::Hash { hash, require_canonical: canonical }) ==> spec_block_query(id) == BlockQuery::ByHash(hash),
        id == BlockId::Number(tag) ==> spec_block_query(id) == BlockQuery::ByNumber(tag),
{
}

/// Which lookup answers a request for the block named by `id`.
pub open spec fn spec_block_query(id: BlockId) -> BlockQuery {
    match id {
        BlockId::Hash { hash, .. } => BlockQuery::ByHash(hash),
        BlockId::Number(n) => BlockQuery::ByNumber(n),
    }
}

} // verus!
