//! What the client reads of accounts and contracts.
use crate::address::Address;
use crate::block::{BlockId, ConvertBlockId, ConvertedBlockId, StarknetBlockId};
use crate::bytes::be_value;
use crate::client::KakarotClient;
use crate::error::{contract_not_found, ConversionError, EthApiError, ProviderError};
use crate::felt::{felt_of_hex, modulus, Felt};
use crate::helpers::{bytes_to_felt_vec, felts_of_bytes};
use crate::step::Step;
use crate::uint::{two_to_128, U256};
use vstd::prelude::*;

verus! {

/// The request to the Kakarot contract at `kakarot_address` for the Starknet address of an account,
/// which the contract computes from its Ethereum address.
#[derive(Clone, Copy, Debug)]
pub struct ComputeStarknetAddress {
    pub kakarot_address: Felt,
    pub ethereum_address: Felt,
    pub block_id: StarknetBlockId,
}

/// The request to the Kakarot contract at `kakarot_address` for the Ethereum address that belongs to
/// `starknet_address`. The reply is the outcome.
#[derive(Clone, Copy, Debug)]
pub struct GetEvmAddress {
    pub kakarot_address: Felt,
    pub starknet_address: Felt,
    pub block_id: StarknetBlockId,
}

/// An operation that makes the Kakarot contract at `kakarot_address` execute a call without creating
/// a transaction.
#[derive(Debug)]
pub struct Call {
    pub kakarot_address: Felt,
    pub origin: Address,
    pub to: Address,
    pub calldata: Vec<u8>,
}

/// The request to the Kakarot contract at `kakarot_address` to execute a call. The reply is the
/// outcome.
#[derive(Debug)]
pub struct EthCall {
    pub kakarot_address: Felt,
    pub origin: Felt,
    pub to: Felt,
    pub calldata: Vec<Felt>,
    pub block_id: StarknetBlockId,
}

/// An operation that looks up a nonce.
#[derive(Clone, Copy, Debug)]
pub struct Nonce {
    pub ethereum_address: Address,
}

/// The request for the Starknet address of the account whose nonce is looked up.
#[derive(Clone, Copy, Debug)]
pub struct NonceAddress {
    pub query: ComputeStarknetAddress,
}

/// The request for the class that the account at `starknet_address` implements.
#[derive(Clone, Copy, Debug)]
pub struct NonceImplementation {
    pub starknet_address: Felt,
    pub block_id: StarknetBlockId,
}

/// The request for the nonce of the account at `starknet_address`.
#[derive(Clone, Copy, Debug)]
pub struct AccountNonce {
    pub starknet_address: Felt,
    pub block_id: StarknetBlockId,
}

/// Which nonce of the account is requested.
#[derive(Clone, Copy, Debug)]
pub enum NonceQuery {
    /// The nonce that the contract account manages itself. The reply is the outcome.
    Managed(AccountNonce),
    /// The nonce that Starknet keeps of the account.
    Native(AccountNonce),
}

/// An operation that looks up a balance in Starknet's native token.
#[derive(Clone, Copy, Debug)]
pub struct Balance {
    pub ethereum_address: Address,
}

/// The request for the Starknet address of the account whose balance is looked up.
#[derive(Clone, Copy, Debug)]
pub struct BalanceAddress {
    pub query: ComputeStarknetAddress,
}

/// The request to the token contract at `token` for the balance of `account`. The reply is the
/// outcome.
#[derive(Clone, Copy, Debug)]
pub struct BalanceOf {
    pub token: Felt,
    pub account: Felt,
    pub block_id: StarknetBlockId,
}

/// An operation that looks up a slot of a contract's storage.
#[derive(Clone, Copy, Debug)]
pub struct StorageAt {
    pub address: Address,
    pub index: U256,
}

/// The request for the Starknet address of the contract whose storage is looked up.
#[derive(Clone, Copy, Debug)]
pub struct StorageAddress {
    pub query: ComputeStarknetAddress,
    pub index: U256,
}

/// The request to the contract account at `account` for the slot whose index has the halves
/// `key_low` and `key_high`. The reply is the outcome.
#[derive(Clone, Copy, Debug)]
pub struct StorageValue {
    pub account: Felt,
    pub key_low: Felt,
    pub key_high: Felt,
    pub block_id: StarknetBlockId,
}

/// Whether `query` asks the Kakarot contract at `kakarot_address` for the Starknet address that
/// belongs to `ethereum_address` in the block `block_id`.
pub open spec fn asks_starknet_address(
    query: ComputeStarknetAddress,
    kakarot_address: Felt,
    ethereum_address: Address,
    block_id: StarknetBlockId,
) -> bool {
    &&& query.kakarot_address == kakarot_address
    &&& query.ethereum_address@ == be_value(ethereum_address.bytes@)
    &&& query.block_id == block_id
}

impl<P> KakarotClient<P> {
    /// Executes a call on an Ethereum address, for a given calldata and block, without creating a
    /// transaction.
    pub fn call(
        &self,
        origin: Address,
        to: Address,
        calldata: Vec<u8>,
        block_id: BlockId,
    ) -> (request: ConvertBlockId<Call>)
        ensures
            request == (ConvertBlockId {
                block_id,
                operation: Call {
                    kakarot_address: self.kakarot_contract.address,
                    origin,
                    to,
                    calldata,
                },
            }),
    {
        ConvertBlockId {
            block_id,
            operation: Call { kakarot_address: self.kakarot_address(), origin, to, calldata },
        }
    }

    /// Returns the nonce of an Ethereum address: the native nonce of an externally owned account,
    /// the managed nonce of a contract account, and zero where there is no account.
    pub fn nonce(&self, ethereum_address: Address, block_id: BlockId) -> (request: ConvertBlockId<
        Nonce,
    >)
        ensures
            request == (ConvertBlockId { block_id, operation: Nonce { ethereum_address } }),
    {
        ConvertBlockId { block_id, operation: Nonce { ethereum_address } }
    }

    /// Returns the balance of an Ethereum address in Starknet's native token.
    pub fn balance(
        &self,
        ethereum_address: Address,
        block_id: BlockId,
    ) -> (request: ConvertBlockId<Balance>)
        ensures
            request == (ConvertBlockId { block_id, operation: Balance { ethereum_address } }),
    {
        ConvertBlockId { block_id, operation: Balance { ethereum_address } }
    }

    /// Returns the value of a contract's storage at an index.
    pub fn storage_at(
        &self,
        address: Address,
        index: U256,
        block_id: BlockId,
    ) -> (request: ConvertBlockId<StorageAt>)
        ensures
            request == (ConvertBlockId { block_id, operation: StorageAt { address, index } }),
    {
        ConvertBlockId { block_id, operation: StorageAt { address, index } }
    }

    /// Returns the Ethereum address that belongs to a Starknet address, by asking the Kakarot
    /// contract.
    pub fn get_evm_address(
        &self,
        starknet_address: &Felt,
        starknet_block_id: &StarknetBlockId,
    ) -> (request: GetEvmAddress)
        ensures
            request == (GetEvmAddress {
                kakarot_address: self.kakarot_contract.address,
                starknet_address: *starknet_address,
                block_id: *starknet_block_id,
            }),
    {
        GetEvmAddress {
            kakarot_address: self.kakarot_address(),
            starknet_address: *starknet_address,
            block_id: *starknet_block_id,
        }
    }

    /// Returns the Starknet address that belongs to an Ethereum address, by asking the Kakarot
    /// contract.
    pub fn compute_starknet_address(
        &self,
        ethereum_address: &Address,
        starknet_block_id: &StarknetBlockId,
    ) -> (request: ComputeStarknetAddress)
        ensures
            asks_starknet_address(
                request,
                self.kakarot_contract.address,
                *ethereum_address,
                *starknet_block_id,
            ),
    {
        ComputeStarknetAddress {
            kakarot_address: self.kakarot_address(),
            ethereum_address: ethereum_address.to_felt(),
            block_id: *starknet_block_id,
        }
    }
}

impl ConvertBlockId<Call> {
    /// Asks the Kakarot contract, with both addresses and each byte of the calldata as field
    /// elements.
    pub fn resume<E>(self, converted: ConvertedBlockId) -> (step: Step<EthCall, Vec<u8>, E>)
        ensures
            match converted {
                Err(e) => step == Step::<EthCall, Vec<u8>, E>::Done(
                    Err(EthApiError::ConversionError(e)),
                ),
                Ok(block_id) => step matches Step::Pending(call) && {
                    &&& call.kakarot_address == self.operation.kakarot_address
                    &&& call.origin@ == be_value(self.operation.origin.bytes@)
                    &&& call.to@ == be_value(self.operation.to.bytes@)
                    &&& felts_of_bytes(call.calldata@, self.operation.calldata@)
                    &&& call.block_id == block_id
                },
            },
    {
        match converted {
            Err(e) => Step::Done(Err(EthApiError::ConversionError(e))),
            Ok(block_id) => Step::Pending(
                EthCall {
                    kakarot_address: self.operation.kakarot_address,
                    origin: self.operation.origin.to_felt(),
                    to: self.operation.to.to_felt(),
                    calldata: bytes_to_felt_vec(&self.operation.calldata),
                    block_id,
                },
            ),
        }
    }
}

impl ConvertBlockId<Nonce> {
    /// Whether `step` is what follows the conversion: the Kakarot contract is asked for the
    /// account's address in the block.
    pub open spec fn leads_to<E>(
        self,
        kakarot_address: Felt,
        converted: ConvertedBlockId,
        step: Step<NonceAddress, U256, E>,
    ) -> bool {
        match converted {
            Err(e) => step == Step::<NonceAddress, U256, E>::Done(
                Err(EthApiError::ConversionError(e)),
            ),
            Ok(block_id) => step matches Step::Pending(request) && asks_starknet_address(
                request.query,
                kakarot_address,
                self.operation.ethereum_address,
                block_id,
            ),
        }
    }

    /// Asks for the Starknet address of the account.
    pub fn resume<P, E>(self, client: &KakarotClient<P>, converted: ConvertedBlockId) -> (step:
        Step<NonceAddress, U256, E>)
        ensures
            self.leads_to(client.kakarot_contract.address, converted, step),
    {
        match converted {
            Err(e) => Step::Done(Err(EthApiError::ConversionError(e))),
            Ok(block_id) => Step::Pending(
                NonceAddress {
                    query: client.compute_starknet_address(
                        &self.operation.ethereum_address,
                        &block_id,
                    ),
                },
            ),
        }
    }
}

impl NonceAddress {
    /// Whether `step` is what follows the reply: the class of the account at that address is
    /// looked up, in the same block.
    pub open spec fn leads_to<E>(
        self,
        reply: Result<Felt, EthApiError<E>>,
        step: Step<NonceImplementation, U256, E>,
    ) -> bool {
        step == (match reply {
            Err(e) => Step::<NonceImplementation, U256, E>::Done(Err(e)),
            Ok(starknet_address) => Step::Pending(
                NonceImplementation { starknet_address, block_id: self.query.block_id },
            ),
        })
    }

    /// Asks for the class of the account.
    pub fn resume<E>(self, reply: Result<Felt, EthApiError<E>>) -> (step: Step<
        NonceImplementation,
        U256,
        E,
    >)
        ensures
            self.leads_to(reply, step),
    {
        match reply {
            Err(e) => Step::Done(Err(e)),
            Ok(starknet_address) => Step::Pending(
                NonceImplementation { starknet_address, block_id: self.query.block_id },
            ),
        }
    }
}

impl NonceImplementation {
    /// Whether `step` is what follows the reply: a contract account is asked for the nonce that it
    /// manages, any other for the native one, and an account that does not exist has the nonce
    /// zero.
    pub open spec fn leads_to<E>(
        self,
        contract_account_class_hash: Felt,
        reply: Result<Felt, EthApiError<E>>,
        step: Step<NonceQuery, U256, E>,
    ) -> bool {
        match reply {
            Err(e) => if contract_not_found(e) {
                step matches Step::Done(Ok(nonce)) && nonce@ == 0
            } else {
                step == Step::<NonceQuery, U256, E>::Done(Err(e))
            },
            Ok(class_hash) => {
                let account = AccountNonce {
                    starknet_address: self.starknet_address,
                    block_id: self.block_id,
                };
                step == Step::<NonceQuery, U256, E>::Pending(
                    if class_hash == contract_account_class_hash {
                        NonceQuery::Managed(account)
                    } else {
                        NonceQuery::Native(account)
                    },
                )
            },
        }
    }

    /// Asks for the nonce that an account of the class in the reply has. An account that does not
    /// exist has the nonce zero.
    pub fn resume<P, E>(
        self,
        client: &KakarotClient<P>,
        reply: Result<Felt, EthApiError<E>>,
    ) -> (step: Step<NonceQuery, U256, E>)
        ensures
            self.leads_to(client.kakarot_contract.contract_account_class_hash, reply, step),
    {
        match reply {
            Err(e) => if e.is_contract_not_found() {
                Step::Done(Ok(U256::zero()))
            } else {
                Step::Done(Err(e))
            },
            Ok(class_hash) => {
                let account = AccountNonce {
                    starknet_address: self.starknet_address,
                    block_id: self.block_id,
                };
                if class_hash == client.contract_account_class_hash() {
                    Step::Pending(NonceQuery::Managed(account))
                } else {
                    Step::Pending(NonceQuery::Native(account))
                }
            },
        }
    }
}

impl AccountNonce {
    /// The native nonce of the account, as an Ethereum nonce.
    pub fn resume<E>(self, reply: Result<Felt, ProviderError<E>>) -> (r: Result<
        U256,
        EthApiError<E>,
    >)
        ensures
            match reply {
                Err(e) => r == Err::<U256, EthApiError<E>>(EthApiError::RequestError(e)),
                Ok(nonce) => r matches Ok(n) && n@ == nonce@,
            },
    {
        match reply {
            Err(e) => Err(EthApiError::RequestError(e)),
            Ok(nonce) => Ok(nonce.to_u256()),
        }
    }
}

impl ConvertBlockId<Balance> {
    /// Whether `step` is what follows the conversion: the Kakarot contract is asked for the
    /// account's address in the block.
    pub open spec fn leads_to<E>(
        self,
        kakarot_address: Felt,
        converted: ConvertedBlockId,
        step: Step<BalanceAddress, U256, E>,
    ) -> bool {
        match converted {
            Err(e) => step == Step::<BalanceAddress, U256, E>::Done(
                Err(EthApiError::ConversionError(e)),
            ),
            Ok(block_id) => step matches Step::Pending(request) && asks_starknet_address(
                request.query,
                kakarot_address,
                self.operation.ethereum_address,
                block_id,
            ),
        }
    }

    /// Asks for the Starknet address of the account.
    pub fn resume<P, E>(self, client: &KakarotClient<P>, converted: ConvertedBlockId) -> (step:
        Step<BalanceAddress, U256, E>)
        ensures
            self.leads_to(client.kakarot_contract.address, converted, step),
    {
        match converted {
            Err(e) => Step::Done(Err(EthApiError::ConversionError(e))),
            Ok(block_id) => Step::Pending(
                BalanceAddress {
                    query: client.compute_starknet_address(
                        &self.operation.ethereum_address,
                        &block_id,
                    ),
                },
            ),
        }
    }
}

impl BalanceAddress {
    /// Whether `step` is what follows the reply: the native token is asked for the balance of the
    /// account at that address, in the same block.
    pub open spec fn leads_to<E>(
        self,
        native_token: Seq<char>,
        reply: Result<Felt, EthApiError<E>>,
        step: Step<BalanceOf, U256, E>,
    ) -> bool {
        match reply {
            Err(e) => step == Step::<BalanceOf, U256, E>::Done(Err(e)),
            Ok(account) => step matches Step::Pending(request) && {
                &&& Some(request.token@) == felt_of_hex(native_token)
                &&& request.account == account
                &&& request.block_id == self.query.block_id
            },
        }
    }

    /// Asks the native token for the balance of the account.
    pub fn resume<P, E>(
        self,
        client: &KakarotClient<P>,
        reply: Result<Felt, EthApiError<E>>,
    ) -> (step: Step<BalanceOf, U256, E>)
        requires
            reply is Ok ==> felt_of_hex(client.constants.native_token@) is Some,
        ensures
            self.leads_to(client.constants.native_token@, reply, step),
    {
        match reply {
            Err(e) => Step::Done(Err(e)),
            Ok(account) => {
                let token = Felt::from_hex_be(client.constants.native_token.as_str()).unwrap();
                Step::Pending(BalanceOf { token, account, block_id: self.query.block_id })
            },
        }
    }
}

impl ConvertBlockId<StorageAt> {
    /// Whether `step` is what follows the conversion: the Kakarot contract is asked for the
    /// contract's address in the block.
    pub open spec fn leads_to<E>(
        self,
        kakarot_address: Felt,
        converted: ConvertedBlockId,
        step: Step<StorageAddress, U256, E>,
    ) -> bool {
        match converted {
            Err(e) => step == Step::<StorageAddress, U256, E>::Done(
                Err(EthApiError::ConversionError(e)),
            ),
            Ok(block_id) => step matches Step::Pending(request) && {
                &&& asks_starknet_address(
                    request.query,
                    kakarot_address,
                    self.operation.address,
                    block_id,
                )
                &&& request.index == self.operation.index
            },
        }
    }

    /// Asks for the Starknet address of the contract.
    pub fn resume<P, E>(self, client: &KakarotClient<P>, converted: ConvertedBlockId) -> (step:
        Step<StorageAddress, U256, E>)
        ensures
            self.leads_to(client.kakarot_contract.address, converted, step),
    {
        match converted {
            Err(e) => Step::Done(Err(EthApiError::ConversionError(e))),
            Ok(block_id) => Step::Pending(
                StorageAddress {
                    query: client.compute_starknet_address(&self.operation.address, &block_id),
                    index: self.operation.index,
                },
            ),
        }
    }
}

impl StorageAddress {
    /// Whether `step` is what follows the reply: the contract at that address is asked, in the
    /// same block, for the slot whose index has the low and the high 128 bits of the index.
    pub open spec fn leads_to<E>(
        self,
        reply: Result<Felt, EthApiError<E>>,
        step: Step<StorageValue, U256, E>,
    ) -> bool {
        match reply {
            Err(e) => step == Step::<StorageValue, U256, E>::Done(Err(e)),
            Ok(account) => step matches Step::Pending(request) && {
                &&& request.account == account
                &&& request.key_low@ == self.index@ % two_to_128()
                &&& request.key_high@ == self.index@ / two_to_128()
                &&& request.block_id == self.query.block_id
            },
        }
    }

    /// Asks the contract for the slot, by the two halves of its index.
    pub fn resume<E>(self, reply: Result<Felt, EthApiError<E>>) -> (step: Step<
        StorageValue,
        U256,
        E,
    >)
        ensures
            self.leads_to(reply, step),
    {
        match reply {
            Err(e) => Step::Done(Err(e)),
            Ok(account) => match (
                Felt::from_u256(self.index.low_half()),
                Felt::from_u256(self.index.high_half()),
            ) {
                (Some(key_low), Some(key_high)) => Step::Pending(
                    StorageValue { account, key_low, key_high, block_id: self.query.block_id },
                ),
                _ => Step::Done(Err(EthApiError::ConversionError(ConversionError::FeltOutOfRange))),
            },
        }
    }
}

/// A nonce is read of the one account that the Ethereum address stands for by the Kakarot contract,
/// in the one block that was asked for: the managed nonce of a contract account, the native nonce of
/// any other.
pub proof fn nonce_is_read_of_the_account<E>(
    kakarot_address: Felt,
    contract_account_class_hash: Felt,
    start: ConvertBlockId<Nonce>,
    block_id: StarknetBlockId,
    addressing: NonceAddress,
    starknet_address: Felt,
    implementing: NonceImplementation,
    class_hash: Felt,
    last: NonceQuery,
)
    requires
        start.leads_to(kakarot_address, Ok(block_id), Step::<_, U256, E>::Pending(addressing)),
        addressing.leads_to(
            Ok::<Felt, EthApiError<E>>(starknet_address),
            Step::Pending(implementing),
        ),
        implementing.leads_to(
            contract_account_class_hash,
            Ok::<Felt, EthApiError<E>>(class_hash),
            Step::Pending(last),
        ),
    ensures
        asks_starknet_address(
            addressing.query,
            kakarot_address,
            start.operation.ethereum_address,
            block_id,
        ),
        last == (if class_hash == contract_account_class_hash {
            NonceQuery::Managed(AccountNonce { starknet_address, block_id })
        } else {
            NonceQuery::Native(AccountNonce { starknet_address, block_id })
        }),
{
}

/// A balance is read of the one account that the Ethereum address stands for by the Kakarot
/// contract, in the one block that was asked for, and in the native token.
pub proof fn balance_is_read_of_the_account<E>(
    kakarot_address: Felt,
    native_token: Seq<char>,
    start: ConvertBlockId<Balance>,
    block_id: StarknetBlockId,
    addressing: BalanceAddress,
    starknet_address: Felt,
    last: BalanceOf,
)
    requires
        start.leads_to(kakarot_address, Ok(block_id), Step::<_, U256, E>::Pending(addressing)),
        addressing.leads_to(
            native_token,
            Ok::<Felt, EthApiError<E>>(starknet_address),
            Step::Pending(last),
        ),
    ensures
        asks_starknet_address(
            addressing.query,
            kakarot_address,
            start.operation.ethereum_address,
            block_id,
        ),
        last.account == starknet_address,
        last.block_id == block_id,
        felt_of_hex(native_token) == Some(last.token@),
{
}

/// A slot is read of the one contract that the Ethereum address stands for by the Kakarot contract,
/// in the one block that was asked for, by keys that make up the whole index. Converting them never
/// fails.
pub proof fn storage_is_read_by_the_whole_index<E>(
    kakarot_address: Felt,
    start: ConvertBlockId<StorageAt>,
    block_id: StarknetBlockId,
    addressing: StorageAddress,
    starknet_address: Felt,
    step: Step<StorageValue, U256, E>,
)
    requires
        start.leads_to(kakarot_address, Ok(block_id), Step::<_, U256, E>::Pending(addressing)),
        addressing.leads_to(Ok::<Felt, EthApiError<E>>(starknet_address), step),
    ensures
        asks_starknet_address(
            addressing.query,
            kakarot_address,
            start.operation.address,
            block_id,
        ),
        step matches Step::Pending(last) && {
            &&& last.account == starknet_address
            &&& last.block_id == block_id
            &&& last.key_high@ * two_to_128() + last.key_low@ == start.operation.index@
        },
{
    let index = start.operation.index@;
    vstd::arithmetic::div_mod::lemma_fundamental_div_mod(index as int, two_to_128() as int);
}

/// The halves of an index of 256 bits are field elements, whatever the index, and they determine
/// it: no two indices ask for the same slot.
pub proof fn storage_keys_determine_the_index(index: nat, other: nat)
    requires
        index < two_to_128() * two_to_128(),
        other < two_to_128() * two_to_128(),
    ensures
        index % two_to_128() < modulus(),
        index / two_to_128() < modulus(),
        index == (index / two_to_128()) * two_to_128() + index % two_to_128(),
        (index % two_to_128() == other % two_to_128() && index / two_to_128() == other
            / two_to_128()) <==> index == other,
{
    vstd::arithmetic::div_mod::lemma_fundamental_div_mod(index as int, two_to_128() as int);
    vstd::arithmetic::div_mod::lemma_fundamental_div_mod(other as int, two_to_128() as int);
}

} // verus!
