//! What the client is configured with.
use crate::felt::Felt;
use crate::uint::U256;
use vstd::prelude::*;

verus! {

/// The Starknet network that the client talks to.
#[derive(Clone, Copy, Debug, PartialEq, Eq, Structural)]
pub enum Network {
    MainnetGateway,
    Goerli1Gateway,
    Goerli2Gateway,
    /// A network that is not reached by a sequencer gateway: Katana, Madara or another node.
    Other,
}

impl Network {
    /// Whether the network is reached by a sequencer gateway.
    pub open spec fn has_gateway(self) -> bool {
        self != Network::Other
    }
}

/// Where Kakarot is deployed, and on which network.
#[derive(Clone, Copy, Debug)]
pub struct KakarotRpcConfig {
    pub kakarot_address: Felt,
    pub proxy_account_class_hash: Felt,
    pub externally_owned_account_class_hash: Felt,
    pub contract_account_class_hash: Felt,
    pub network: Network,
}

/// The fixed values that the client answers and asks with.
#[derive(Debug)]
pub struct Constants {
    /// The base fee per gas, which is the gas price of networks without a gateway.
    pub base_fee_per_gas: u128,
    pub max_priority_fee_per_gas: u128,
    /// The least amount of gas that an estimate gives.
    pub minimum_gas_fee: u64,
    /// The chain id of requests that name none.
    pub chain_id: u64,
    /// The estimate of gas on networks without a gateway.
    pub estimate_gas: U256,
    /// The gas price of simulations without a gateway.
    pub max_fee: Felt,
    /// The address of Starknet's native token, in hexadecimal.
    pub native_token: String,
    /// The account in whose name the gas price is looked up.
    pub gas_price_account: Felt,
    /// The calldata of the call whose simulation gives the gas price, for each gateway.
    pub counter_call_mainnet: Vec<Felt>,
    pub counter_call_testnet1: Vec<Felt>,
    pub counter_call_testnet2: Vec<Felt>,
    /// The URL of the network's gateway, where it has one.
    pub gateway_url: Option<reqwest::Url>,
}

} // verus!
