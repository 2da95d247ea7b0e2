//! The client itself.
use crate::config::{Constants, KakarotRpcConfig, Network};
use crate::felt::Felt;
use crate::uint::{uint_is_its_number, U256};
use std::sync::Arc;
use vstd::prelude::*;

verus! {

/// The Kakarot contract and the classes of the accounts that it deploys.
#[derive(Clone, Copy, Debug)]
pub struct KakarotContract {
    pub address: Felt,
    pub proxy_account_class_hash: Felt,
    pub externally_owned_account_class_hash: Felt,
    pub contract_account_class_hash: Felt,
}

/// The client that answers Ethereum requests from the Kakarot contracts on Starknet.
///
/// `P` is the provider that reaches the Starknet node.
pub struct KakarotClient<P> {
    pub starknet_provider: Arc<P>,
    pub kakarot_contract: KakarotContract,
    pub network: Network,
    pub constants: Constants,
}

impl<P> KakarotClient<P> {
    /// Creates a new `KakarotClient`.
    pub fn new(
        starknet_config: KakarotRpcConfig,
        constants: Constants,
        starknet_provider: Arc<P>,
    ) -> (client: Self)
        ensures
            client.starknet_provider == starknet_provider,
            client.kakarot_contract == (KakarotContract {
                address: starknet_config.kakarot_address,
                proxy_account_class_hash: starknet_config.proxy_account_class_hash,
                externally_owned_account_class_hash:
                    starknet_config.externally_owned_account_class_hash,
                contract_account_class_hash: starknet_config.contract_account_class_hash,
            }),
            client.network == starknet_config.network,
            client.constants == constants,
    {
        let kakarot_contract = KakarotContract {
            address: starknet_config.kakarot_address,
            proxy_account_class_hash: starknet_config.proxy_account_class_hash,
            externally_owned_account_class_hash:
                starknet_config.externally_owned_account_class_hash,
            contract_account_class_hash: starknet_config.contract_account_class_hash,
        };
        KakarotClient {
            starknet_provider,
            kakarot_contract,
            network: starknet_config.network,
            constants,
        }
    }

    /// Returns the fixed base fee per gas of Kakarot.
    ///
    /// Since Starknet works on a first come, first served basis, it is not possible to tip for a
    /// faster inclusion. As a result the gas price of Kakarot is its base fee per gas.
    pub fn base_fee_per_gas(&self) -> (fee: U256)
        ensures
            fee@ == self.constants.base_fee_per_gas,
    {
        U256::from_u128(self.constants.base_fee_per_gas)
    }

    /// Returns the maximum priority fee per gas of Kakarot.
    pub fn max_priority_fee_per_gas(&self) -> (fee: u128)
        ensures
            fee == self.constants.max_priority_fee_per_gas,
    {
        self.constants.max_priority_fee_per_gas
    }

    /// Returns the address of the Kakarot contract.
    pub fn kakarot_address(&self) -> (address: Felt)
        ensures
            address == self.kakarot_contract.address,
    {
        self.kakarot_contract.address
    }

    /// Returns the class hash of Kakarot's externally owned accounts.
    pub fn externally_owned_account_class_hash(&self) -> (class_hash: Felt)
        ensures
            class_hash == self.kakarot_contract.externally_owned_account_class_hash,
    {
        self.kakarot_contract.externally_owned_account_class_hash
    }

    /// Returns the class hash of Kakarot's contract accounts.
    pub fn contract_account_class_hash(&self) -> (class_hash: Felt)
        ensures
            class_hash == self.kakarot_contract.contract_account_class_hash,
    {
        self.kakarot_contract.contract_account_class_hash
    }

    /// Returns the class hash of Kakarot's proxy accounts.
    pub fn proxy_account_class_hash(&self) -> (class_hash: Felt)
        ensures
            class_hash == self.kakarot_contract.proxy_account_class_hash,
    {
        self.kakarot_contract.proxy_account_class_hash
    }

    /// Returns the Starknet provider, shared with the client.
    pub fn starknet_provider(&self) -> (provider: Arc<P>)
        ensures
            provider == self.starknet_provider,
    {
        share(&self.starknet_provider)
    }
}

/// The base fee is fixed: clients that hold the same constants have the same one, whatever they are
/// configured with, whatever their network and whatever provider they use. It is the constant.
pub proof fn base_fee_is_fixed<P, Q>(
    constants: Constants,
    config: KakarotRpcConfig,
    provider: Arc<P>,
    client: KakarotClient<P>,
    fee: U256,
    other_config: KakarotRpcConfig,
    other_provider: Arc<Q>,
    other_client: KakarotClient<Q>,
    other_fee: U256,
)
    requires
        call_ensures(KakarotClient::<P>::new, (config, constants, provider), client),
        call_ensures(KakarotClient::<P>::base_fee_per_gas, (&client,), fee),
        call_ensures(
            KakarotClient::<Q>::new,
            (other_config, constants, other_provider),
            other_client,
        ),
        call_ensures(KakarotClient::<Q>::base_fee_per_gas, (&other_client,), other_fee),
    ensures
        fee == other_fee,
        fee@ == constants.base_fee_per_gas,
{
    uint_is_its_number(fee, other_fee);
}

/// `Arc::clone`: another pointer to the same value.
#[verifier::external_body]
fn share<P>(provider: &Arc<P>) -> (shared: Arc<P>)
    ensures
        shared == *provider,
{
    Arc::clone(provider)
}

} // verus!
