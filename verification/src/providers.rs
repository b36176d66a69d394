//! Provider identities: the fixed per-chain catalogs of well-known providers
//! plus the custom escape hatch of an endpoint URL with optional headers.
//! An identity is attribution metadata only — it is never part of the answer.

use vstd::prelude::*;

verus! {

/// One HTTP header attached to requests toward a custom provider, as a pair
/// of plain strings.
#[derive(Clone, Debug, PartialEq, Eq, PartialOrd, Ord, Hash)]
pub struct HttpHeader {
    pub name: String,
    pub value: String,
}

/// A custom provider: an endpoint URL plus optional extra headers.
#[derive(Clone, Debug, PartialEq, Eq, PartialOrd, Ord)]
pub struct RpcApi {
    pub url: String,
    pub headers: Option<Vec<HttpHeader>>,
}

/// The catalog of well-known mainnet providers.
#[derive(Clone, Copy, Debug, PartialEq, Eq, PartialOrd, Ord)]
pub enum EthMainnetService {
    Alchemy,
    Ankr,
    BlockPi,
    PublicNode,
    Cloudflare,
}

/// The catalog of well-known providers on the Sepolia test network.
#[derive(Clone, Copy, Debug, PartialEq, Eq, PartialOrd, Ord)]
pub enum EthSepoliaService {
    Alchemy,
    Ankr,
    BlockPi,
    PublicNode,
}

/// The identity of the provider that produced one outcome: a catalog entry
/// for a known chain, or a custom endpoint.
#[derive(Clone, Debug, PartialEq, Eq, PartialOrd, Ord)]
pub enum RpcService {
    Custom(RpcApi),
    EthMainnet(EthMainnetService),
    EthSepolia(EthSepoliaService),
}

/// The set of providers a caller asks the dispatch layer to query: a chain's
/// whole catalog (or a chosen subset of it), or custom endpoints for an
/// arbitrary chain id.
#[derive(Clone, Debug, PartialEq, Eq)]
pub enum RpcServices {
    Custom { chain_id: u64, services: Vec<RpcApi> },
    EthMainnet(Option<Vec<EthMainnetService>>),
    EthSepolia(Option<Vec<EthSepoliaService>>),
}

/// Per-call tuning handed to the dispatch layer.
#[derive(Clone, Debug, PartialEq, Eq)]
pub struct RpcConfig {
    pub response_size_estimate: Option<u64>,
}

impl Default for RpcConfig {
    /// By default no response size estimate is supplied.
    fn default() -> (config: Self)
        ensures
            config == (RpcConfig { response_size_estimate: None }),
    {
        RpcConfig { response_size_estimate: None }
    }
}

} // verus!
