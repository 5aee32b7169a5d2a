use vstd::prelude::*;

verus! {

/// The chains for which live streams know a default polling interval.
#[derive(Debug, Clone, Copy, PartialEq, Eq, Structural, Hash)]
pub enum SupportedChains {
    Mainnet,
    Base,
    Unichain,
    Sepolia,
}

/// The EIP-155 chain id of each supported chain.
pub open spec fn spec_chain_id(chain: SupportedChains) -> u64 {
    match chain {
        SupportedChains::Mainnet => 1,
        SupportedChains::Base => 8453,
        SupportedChains::Unichain => 130,
        SupportedChains::Sepolia => 11155111,
    }
}

/// The chain with the given id, if it is one of the supported chains.
pub open spec fn spec_from_chain_id(id: u64) -> Option<SupportedChains> {
    if id == 1 {
        Some(SupportedChains::Mainnet)
    } else if id == 130 {
        Some(SupportedChains::Unichain)
    } else if id == 8453 {
        Some(SupportedChains::Base)
    } else if id == 11155111 {
        Some(SupportedChains::Sepolia)
    } else {
        None
    }
}

/// How often, in milliseconds, a live stream polls the database of each chain.
pub open spec fn spec_poll_time_ms(chain: SupportedChains) -> usize {
    match chain {
        SupportedChains::Mainnet => 500,
        SupportedChains::Base => 100,
        SupportedChains::Unichain => 75,
        SupportedChains::Sepolia => 500,
    }
}

impl SupportedChains {
    pub fn from_chain_id(id: u64) -> (r: Option<Self>)
        ensures
            r == spec_from_chain_id(id),
    {
        match id {
            1 => Some(Self::Mainnet),
            130 => Some(Self::Unichain),
            8453 => Some(Self::Base),
            11155111 => Some(Self::Sepolia),
            _ => None,
        }
    }

    /// The poll interval of the chain with id `id`; the id must be supported.
    pub fn get_default_poll_time_ms_for_chain_id(id: u64) -> (r: usize)
        requires
            spec_from_chain_id(id) is Some,
        ensures
            r == spec_poll_time_ms(spec_from_chain_id(id).unwrap()),
    {
        match Self::from_chain_id(id) {
            Some(chain) => chain.get_default_poll_time_ms_for_chain(),
            None => 0,
        }
    }

    pub fn get_default_poll_time_ms_for_chain(&self) -> (r: usize)
        ensures
            r == spec_poll_time_ms(*self),
    {
        match self {
            SupportedChains::Mainnet => 500,
            SupportedChains::Base => 100,
            SupportedChains::Unichain => 75,
            SupportedChains::Sepolia => 500,
        }
    }
}

/// Every supported chain is found again from its own chain id, and an id
/// that names a supported chain is that chain's id: `from_chain_id` is the
/// exact inverse of the chain-id table.
pub proof fn lemma_chain_id_round_trip(chain: SupportedChains, id: u64)
    ensures
        spec_from_chain_id(spec_chain_id(chain)) == Some(chain),
        spec_from_chain_id(id) == Some(chain) ==> id == spec_chain_id(chain),
{
}

/// Every supported chain polls at a positive interval of at most half a second.
pub proof fn lemma_poll_time_positive(chain: SupportedChains)
    ensures
        0 < spec_poll_time_ms(chain) <= 500,
{
}

/// The supported chains are exactly Ethereum mainnet (id 1, polled every
/// 500 ms), Base (8453, 100 ms), Unichain (130, 75 ms) and Sepolia (11155111,
/// 500 ms); every other id is unsupported.
pub proof fn lemma_supported_chain_table(id: u64)
    ensures
        spec_from_chain_id(id) == Some(SupportedChains::Mainnet) <==> id == 1,
        spec_from_chain_id(id) == Some(SupportedChains::Base) <==> id == 8453,
        spec_from_chain_id(id) == Some(SupportedChains::Unichain) <==> id == 130,
        spec_from_chain_id(id) == Some(SupportedChains::Sepolia) <==> id == 11155111,
        spec_from_chain_id(id) is None <==> (id != 1 && id != 8453 && id != 130 && id != 11155111),
        spec_poll_time_ms(SupportedChains::Mainnet) == 500,
        spec_poll_time_ms(SupportedChains::Base) == 100,
        spec_poll_time_ms(SupportedChains::Unichain) == 75,
        spec_poll_time_ms(SupportedChains::Sepolia) == 500,
{
}

} // verus!
