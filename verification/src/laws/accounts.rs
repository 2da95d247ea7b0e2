//! What is read of accounts and contracts, and of whom it is asked.
use crate::account::{
    AccountNonce, Balance, BalanceAddress, BalanceOf, Call, ComputeStarknetAddress, EthCall,
    GetEvmAddress, Nonce, NonceAddress, NonceImplementation, NonceQuery, StorageAddress, StorageAt,
    StorageValue,
};
use crate::address::Address;
use crate::block::{
    BlockId, BlockNumberOrTag, ConvertBlockId, ConvertedBlockId, StarknetBlockId,
};
use crate::bytes::{be_value, lemma_be_value_injective};
use crate::client::KakarotClient;
use crate::config::{Constants, KakarotRpcConfig};
use crate::error::{EthApiError, MaybeUnknownErrorCode, ProviderError, StarknetError};
use crate::felt::{felt_of_hex, Felt};
use crate::step::Step;
use crate::tokens::{TokenBalances, TokenBalancesQuery};
use crate::uint::U256;
use std::sync::Arc;
use vstd::prelude::*;

verus! {

/// A client answers with what it was configured with.
pub proof fn client_answers_as_configured<P>(
    config: KakarotRpcConfig,
    constants: Constants,
    provider: Arc<P>,
    client: KakarotClient<P>,
    base_fee: U256,
    priority_fee: u128,
    kakarot_address: Felt,
    externally_owned: Felt,
    contract: Felt,
    proxy: Felt,
    shared: Arc<P>,
)
    requires
        call_ensures(KakarotClient::<P>::new, (config, constants, provider), client),
        call_ensures(KakarotClient::<P>::base_fee_per_gas, (&client,), base_fee),
        call_ensures(KakarotClient::<P>::max_priority_fee_per_gas, (&client,), priority_fee),
        call_ensures(KakarotClient::<P>::kakarot_address, (&client,), kakarot_address),
        call_ensures(
            KakarotClient::<P>::externally_owned_account_class_hash,
            (&client,),
            externally_owned,
        ),
        call_ensures(KakarotClient::<P>::contract_account_class_hash, (&client,), contract),
        call_ensures(KakarotClient::<P>::proxy_account_class_hash, (&client,), proxy),
        call_ensures(KakarotClient::<P>::starknet_provider, (&client,), shared),
    ensures
        base_fee.hi == 0 && base_fee.lo == constants.base_fee_per_gas,
        priority_fee == constants.max_priority_fee_per_gas,
        kakarot_address == config.kakarot_address,
        externally_owned == config.externally_owned_account_class_hash,
        contract == config.contract_account_class_hash,
        proxy == config.proxy_account_class_hash,
        shared == provider,
        client.kakarot_contract.address == config.kakarot_address,
        client.kakarot_contract.contract_account_class_hash == config.contract_account_class_hash,
        client.network == config.network,
        client.constants == constants,
{
}

/// The Starknet address of an account is asked of the client's own Kakarot contract, by the number
/// that all twenty bytes of the Ethereum address write, in the block that was named.
pub proof fn address_is_asked_by_all_its_bytes<P>(
    client: &KakarotClient<P>,
    address: &Address,
    block_id: &StarknetBlockId,
    query: ComputeStarknetAddress,
)
    requires
        call_ensures(
            KakarotClient::<P>::compute_starknet_address,
            (client, address, block_id),
            query,
        ),
    ensures
        query.kakarot_address == client.kakarot_contract.address,
        query.ethereum_address@ == be_value(address.bytes@),
        query.block_id == *block_id,
{
}

/// Two distinct addresses never give the same query.
pub proof fn distinct_addresses_are_asked_apart<P>(
    client: &KakarotClient<P>,
    a: &Address,
    b: &Address,
    block_id: &StarknetBlockId,
    x: ComputeStarknetAddress,
    y: ComputeStarknetAddress,
)
    requires
        call_ensures(KakarotClient::<P>::compute_starknet_address, (client, a, block_id), x),
        call_ensures(KakarotClient::<P>::compute_starknet_address, (client, b, block_id), y),
    ensures
        x.ethereum_address@ == y.ethereum_address@ <==> a.bytes@ == b.bytes@,
{
    address_is_asked_by_all_its_bytes(client, a, block_id, x);
    address_is_asked_by_all_its_bytes(client, b, block_id, y);
    if x.ethereum_address@ == y.ethereum_address@ {
        lemma_be_value_injective(a.bytes@, b.bytes@);
    }
}

/// The Ethereum address of an account is asked of the client's own Kakarot contract, for the
/// Starknet address and the block that were named.
pub proof fn evm_address_is_asked_of_kakarot<P>(
    client: &KakarotClient<P>,
    starknet_address: &Felt,
    block_id: &StarknetBlockId,
    query: GetEvmAddress,
)
    requires
        call_ensures(
            KakarotClient::<P>::get_evm_address,
            (client, starknet_address, block_id),
            query,
        ),
    ensures
        query.kakarot_address == client.kakarot_contract.address,
        query.starknet_address == *starknet_address,
        query.block_id == *block_id,
{
}

/// A call is executed by the client's own Kakarot contract: from the origin to the target, each by
/// the number that its bytes write, in the block that the id stands for, and with the byte at each
/// place of the calldata at the same place.
pub proof fn call_is_executed_as_given<P, E>(
    client: &KakarotClient<P>,
    origin: Address,
    to: Address,
    calldata: Vec<u8>,
    block_id: BlockId,
    start: ConvertBlockId<Call>,
    converted: ConvertedBlockId,
    step: Step<EthCall, Vec<u8>, E>,
)
    requires
        call_ensures(
            KakarotClient::<P>::call,
            (client, origin, to, calldata, block_id),
            start,
        ),
        call_ensures(ConvertBlockId::<Call>::resume::<E>, (start, converted), step),
    ensures
        start.block_id == block_id,
        converted matches Err(e) ==> step == Step::<EthCall, Vec<u8>, E>::Done(
            Err(EthApiError::ConversionError(e)),
        ),
        converted matches Ok(starknet_block_id) ==> step matches Step::Pending(request) && {
            &&& request.kakarot_address == client.kakarot_contract.address
            &&& request.origin@ == be_value(origin.bytes@)
            &&& request.to@ == be_value(to.bytes@)
            &&& request.block_id == starknet_block_id
            &&& request.calldata@.len() == calldata@.len()
            &&& forall|i: int|
                0 <= i < calldata@.len() ==> (#[trigger] request.calldata@[i])@ == calldata@[i]
        },
{
}

/// A nonce is looked up of the account that the client's own Kakarot contract gives for all twenty
/// bytes of the Ethereum address, in the block that the id stands for. A contract account is asked
/// for the nonce that it manages, any other for the native one, whose number is the outcome. Where
/// no contract is found at the account's address the outcome is zero, and every other failure is
/// the outcome itself.
pub proof fn nonce_is_that_of_the_account<P, E>(
    client: &KakarotClient<P>,
    address: Address,
    block_id: BlockId,
    start: ConvertBlockId<Nonce>,
    starknet_block_id: StarknetBlockId,
    addressing: NonceAddress,
    starknet_address: Felt,
    implementing: NonceImplementation,
    class: Result<Felt, EthApiError<E>>,
    step: Step<NonceQuery, U256, E>,
    reply: Result<Felt, ProviderError<E>>,
    r: Result<U256, EthApiError<E>>,
)
    requires
        call_ensures(KakarotClient::<P>::nonce, (client, address, block_id), start),
        call_ensures(
            ConvertBlockId::<Nonce>::resume::<P, E>,
            (start, client, Ok(starknet_block_id)),
            Step::Pending(addressing),
        ),
        call_ensures(
            NonceAddress::resume::<E>,
            (addressing, Ok(starknet_address)),
            Step::Pending(implementing),
        ),
        call_ensures(NonceImplementation::resume::<P, E>, (implementing, client, class), step),
        step matches Step::Pending(NonceQuery::Native(account)) ==> call_ensures(
            AccountNonce::resume::<E>,
            (account, reply),
            r,
        ),
    ensures
        start.block_id == block_id,
        addressing.query.kakarot_address == client.kakarot_contract.address,
        addressing.query.ethereum_address@ == be_value(address.bytes@),
        addressing.query.block_id == starknet_block_id,
        implementing.starknet_address == starknet_address,
        implementing.block_id == starknet_block_id,
        class matches Ok(class_hash) ==> {
            &&& class_hash == client.kakarot_contract.contract_account_class_hash ==> (
            step matches Step::Pending(NonceQuery::Managed(account)) && account.starknet_address
                == starknet_address && account.block_id == starknet_block_id)
            &&& class_hash != client.kakarot_contract.contract_account_class_hash ==> (
            step matches Step::Pending(NonceQuery::Native(account)) && account.starknet_address
                == starknet_address && account.block_id == starknet_block_id && match reply {
                Ok(nonce) => r matches Ok(n) && n@ == nonce@,
                Err(e) => r == Err::<U256, EthApiError<E>>(EthApiError::RequestError(e)),
            })
        },
        class matches Err(e) ==> match e {
            EthApiError::RequestError(ProviderError::StarknetError(inner)) if inner.code
                == MaybeUnknownErrorCode::Known(
                StarknetError::ContractNotFound,
            ) => step matches Step::Done(Ok(nonce)) && nonce.hi == 0 && nonce.lo == 0,
            _ => step == Step::<NonceQuery, U256, E>::Done(Err(e)),
        },
{
}

/// A failure on the way to a nonce, before the account's class is asked for, is the outcome, and
/// without one the lookup goes on.
pub proof fn nonce_fails_with_the_lookup<P, E>(
    client: &KakarotClient<P>,
    start: ConvertBlockId<Nonce>,
    converted: ConvertedBlockId,
    after_block_id: Step<NonceAddress, U256, E>,
    addressing: NonceAddress,
    reply: Result<Felt, EthApiError<E>>,
    after_address: Step<NonceImplementation, U256, E>,
)
    requires
        call_ensures(
            ConvertBlockId::<Nonce>::resume::<P, E>,
            (start, client, converted),
            after_block_id,
        ),
        call_ensures(NonceAddress::resume::<E>, (addressing, reply), after_address),
    ensures
        converted matches Err(e) ==> after_block_id == Step::<NonceAddress, U256, E>::Done(
            Err(EthApiError::ConversionError(e)),
        ),
        converted is Ok ==> after_block_id is Pending,
        reply matches Err(e) ==> after_address == Step::<NonceImplementation, U256, E>::Done(Err(e)),
        reply is Ok ==> after_address is Pending,
{
}

/// Whether the node says that there is no contract is read of the error's code alone.
pub proof fn contract_not_found_is_read_of_the_code<E>(error: &EthApiError<E>, r: bool)
    requires
        call_ensures(EthApiError::<E>::is_contract_not_found, (error,), r),
    ensures
        r <==> (error matches EthApiError::RequestError(ProviderError::StarknetError(inner))
            && inner.code == MaybeUnknownErrorCode::Known(StarknetError::ContractNotFound)),
{
}

/// A balance is asked of the native token, for the account that the client's own Kakarot contract
/// gives for all twenty bytes of the Ethereum address, in the block that the id stands for. A
/// failure on the way is the outcome, and only a known account needs the token's address.
pub proof fn balance_is_that_of_the_account<P, E>(
    client: &KakarotClient<P>,
    address: Address,
    block_id: BlockId,
    start: ConvertBlockId<Balance>,
    converted: ConvertedBlockId,
    step: Step<BalanceAddress, U256, E>,
    reply: Result<Felt, EthApiError<E>>,
    last: Step<BalanceOf, U256, E>,
)
    requires
        call_ensures(KakarotClient::<P>::balance, (client, address, block_id), start),
        call_ensures(
            ConvertBlockId::<Balance>::resume::<P, E>,
            (start, client, converted),
            step,
        ),
        step matches Step::Pending(addressing) ==> call_ensures(
            BalanceAddress::resume::<P, E>,
            (addressing, client, reply),
            last,
        ),
    ensures
        start.block_id == block_id,
        converted matches Err(e) ==> step == Step::<BalanceAddress, U256, E>::Done(
            Err(EthApiError::ConversionError(e)),
        ),
        converted matches Ok(starknet_block_id) ==> step matches Step::Pending(addressing) && {
            &&& addressing.query.kakarot_address == client.kakarot_contract.address
            &&& addressing.query.ethereum_address@ == be_value(address.bytes@)
            &&& addressing.query.block_id == starknet_block_id
            &&& match reply {
                Err(e) => last == Step::<BalanceOf, U256, E>::Done(Err(e)),
                Ok(account) => last matches Step::Pending(request) && {
                    &&& felt_of_hex(client.constants.native_token@) == Some(request.token@)
                    &&& request.account == account
                    &&& request.block_id == starknet_block_id
                },
            }
            &&& reply is Err || felt_of_hex(client.constants.native_token@) is Some
                ==> call_requires(BalanceAddress::resume::<P, E>, (addressing, client, reply))
        },
{
}

/// A slot is asked of the contract that the client's own Kakarot contract gives for all twenty
/// bytes of the Ethereum address, in the block that the id stands for, by the lower and the upper
/// 128 bits of its index.
pub proof fn storage_is_that_of_the_contract<P, E>(
    client: &KakarotClient<P>,
    address: Address,
    index: U256,
    block_id: BlockId,
    start: ConvertBlockId<StorageAt>,
    converted: ConvertedBlockId,
    step: Step<StorageAddress, U256, E>,
    reply: Result<Felt, EthApiError<E>>,
    last: Step<StorageValue, U256, E>,
)
    requires
        call_ensures(KakarotClient::<P>::storage_at, (client, address, index, block_id), start),
        call_ensures(
            ConvertBlockId::<StorageAt>::resume::<P, E>,
            (start, client, converted),
            step,
        ),
        step matches Step::Pending(addressing) ==> call_ensures(
            StorageAddress::resume::<E>,
            (addressing, reply),
            last,
        ),
    ensures
        start.block_id == block_id,
        converted matches Err(e) ==> step == Step::<StorageAddress, U256, E>::Done(
            Err(EthApiError::ConversionError(e)),
        ),
        converted matches Ok(starknet_block_id) ==> step matches Step::Pending(addressing) && {
            &&& addressing.query.kakarot_address == client.kakarot_contract.address
            &&& addressing.query.ethereum_address@ == be_value(address.bytes@)
            &&& addressing.query.block_id == starknet_block_id
            &&& match reply {
                Err(e) => last == Step::<StorageValue, U256, E>::Done(Err(e)),
                Ok(account) => last matches Step::Pending(request) && {
                    &&& request.account == account
                    &&& request.key_low@ == index.lo
                    &&& request.key_high@ == index.hi
                    &&& request.block_id == starknet_block_id
                },
            }
        },
{
    vstd::arithmetic::div_mod::lemma_fundamental_div_mod_converse(
        index@ as int,
        crate::uint::two_to_128() as int,
        index.hi as int,
        index.lo as int,
    );
}

/// For each token, in order, the balance of the address is asked through the client's own Kakarot
/// contract, in the latest block. The outcome holds the balances as they came, with the address.
pub proof fn token_balances_are_asked_in_order<P, B>(
    client: &KakarotClient<P>,
    address: Address,
    token_addresses: Vec<Address>,
    request: TokenBalancesQuery,
    reply: Vec<B>,
    balances: TokenBalances<B>,
)
    requires
        call_ensures(
            KakarotClient::<P>::token_balances,
            (client, address, token_addresses),
            request,
        ),
        call_ensures(TokenBalancesQuery::resume::<B>, (request, reply), balances),
    ensures
        request.queries@.len() == token_addresses@.len(),
        forall|i: int|
            #![trigger request.queries@[i]]
            0 <= i < token_addresses@.len() ==> {
                &&& request.queries@[i].kakarot_address == client.kakarot_contract.address
                &&& request.queries@[i].token_address == token_addresses@[i]
                &&& request.queries@[i].token@ == be_value(token_addresses@[i].bytes@)
                &&& request.queries@[i].account@ == be_value(address.bytes@)
                &&& request.queries@[i].block_id == BlockId::Number(BlockNumberOrTag::Latest)
            },
        balances.address == address,
        balances.token_balances == reply,
{
}

} // verus!
