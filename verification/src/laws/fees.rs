//! What the history of fees and the gas price hold.
use crate::block::{BlockNumberOrTag, BlockTag, StarknetBlockId};
use crate::client::KakarotClient;
use crate::config::Network;
use crate::error::{ConversionError, EthApiError, ProviderError};
use crate::felt::Felt;
use crate::fees::{
    FeeHistory, FeeHistoryBlock, GasPriceBlock, GasPriceNonce, GasPriceSimulation,
};
use crate::gateway::{
    hex_text, json_string_lists, json_strings, url_joined, url_text, url_with_query_pair,
};
use crate::laws::simulations::{
    simulation_posts_the_transaction, simulation_without_a_gateway_is_fixed,
};
use crate::simulation::{FeeUnit, TransactionSimulationInfo};
use crate::step::Step;
use crate::text::decimal_text;
use crate::uint::U256;
use vstd::arithmetic::power2::pow2;
use vstd::prelude::*;

verus! {

/// A history of `block_count` blocks has one base fee for each of them and one for the block after
/// them, all alike, and 90 percent of used gas for each. It starts `block_count` blocks before the
/// newest one, or with block zero where there are not so many. The newest block is the one that was
/// named, the first one for the earliest, and otherwise the one that the node gives. Any history can
/// be asked for whose base fees, of 32 bytes each, take no more than the largest allocation.
pub proof fn fee_history_holds_one_entry_for_each_block<P, E, R>(
    client: &KakarotClient<P>,
    block_count: U256,
    newest_block: BlockNumberOrTag,
    percentiles: Option<Vec<R>>,
    step: Step<FeeHistoryBlock, FeeHistory, E>,
    reply: Result<u64, ProviderError<E>>,
    r: Result<FeeHistory, EthApiError<E>>,
)
    requires
        block_count.hi == 0 && block_count.lo <= usize::MAX,
        call_ensures(
            KakarotClient::<P>::fee_history::<E, R>,
            (client, block_count, newest_block, percentiles),
            step,
        ),
        match step {
            Step::Done(outcome) => r == outcome,
            Step::Pending(request) => call_ensures(
                FeeHistoryBlock::resume::<P, E>,
                (request, client, reply),
                r,
            ),
        },
    ensures
        step is Pending <==> !(newest_block is Number || newest_block is Earliest),
        step is Pending ==> (reply matches Err(e) ==> r == Err::<FeeHistory, EthApiError<E>>(
            EthApiError::RequestError(e),
        )),
        step is Done || reply is Ok ==> {
            let newest: int = match newest_block {
                BlockNumberOrTag::Number(n) => n as int,
                BlockNumberOrTag::Earliest => 1,
                _ => reply->Ok_0 as int,
            };
            let count = block_count.lo as int;
            r matches Ok(history) && {
                &&& history.base_fee_per_gas@.len() == count + 1
                &&& forall|i: int|
                    #![trigger history.base_fee_per_gas@[i]]
                    0 <= i <= count ==> history.base_fee_per_gas@[i].hi == 0
                        && history.base_fee_per_gas@[i].lo == client.constants.base_fee_per_gas
                &&& history.gas_used_percent@.len() == count
                &&& forall|i: int|
                    0 <= i < count ==> #[trigger] history.gas_used_percent@[i] == 90
                &&& newest >= count ==> history.oldest_block@ + count == newest
                &&& newest < count ==> history.oldest_block@ == 0
                &&& history.reward matches Some(rewards) && rewards@.len() == 1
                    && rewards@[0]@.len() == 0
            }
        },
        (block_count.lo + 1) * 32 <= isize::MAX ==> call_requires(
            KakarotClient::<P>::fee_history::<E, R>,
            (client, block_count, newest_block, percentiles),
        ),
        step matches Step::Pending(request) ==> ((block_count.lo + 1) * 32 <= isize::MAX
            ==> call_requires(FeeHistoryBlock::resume::<P, E>, (request, client, reply))),
{
    assert(block_count@ == block_count.lo);
}

/// A number of blocks that is no `usize` is refused, whatever the newest block is.
pub proof fn fee_history_of_too_many_blocks_is_refused<P, E, R>(
    client: &KakarotClient<P>,
    block_count: U256,
    newest_block: BlockNumberOrTag,
    percentiles: Option<Vec<R>>,
    step: Step<FeeHistoryBlock, FeeHistory, E>,
)
    requires
        block_count.hi > 0 || block_count.lo > usize::MAX,
        call_ensures(
            KakarotClient::<P>::fee_history::<E, R>,
            (client, block_count, newest_block, percentiles),
            step,
        ),
    ensures
        step matches Step::Done(
            Err(EthApiError::ConversionError(ConversionError::ValueOutOfRange(text))),
        ) && "Uint<256> value is too large for "@.is_prefix_of(text@),
        call_requires(
            KakarotClient::<P>::fee_history::<E, R>,
            (client, block_count, newest_block, percentiles),
        ),
{
    assert(block_count@ > usize::MAX);
}

/// Without a gateway the gas price is the base fee, and nothing is asked. With one, the nonce of the
/// account for it is asked for on the latest block, and the call is the network's own.
pub proof fn gas_price_starts_with_the_network<P, E>(
    client: &KakarotClient<P>,
    step: Step<GasPriceNonce, U256, E>,
)
    requires
        call_ensures(KakarotClient::<P>::gas_price::<E>, (client,), step),
    ensures
        client.network is Other ==> (step matches Step::Done(Ok(price)) && price.hi == 0 && price.lo
            == client.constants.base_fee_per_gas),
        !(client.network is Other) ==> (step matches Step::Pending(request) && {
            &&& request.block_id == StarknetBlockId::Tag(BlockTag::Latest)
            &&& request.sender_address == client.constants.gas_price_account
            &&& client.network is MainnetGateway ==> request.calldata@
                == client.constants.counter_call_mainnet@
            &&& client.network is Goerli1Gateway ==> request.calldata@
                == client.constants.counter_call_testnet1@
            &&& client.network is Goerli2Gateway ==> request.calldata@
                == client.constants.counter_call_testnet2@
        }),
{
}

/// What is posted for the gas price is the network's own call, from the account for it, with the
/// nonce and on the block that the node gave, unsigned, for no fee, as a query and without its
/// validation. The outcome is the gas price of the simulation.
pub proof fn gas_price_is_that_of_the_posted_call<P, I, E>(
    client: &KakarotClient<P>,
    base: reqwest::Url,
    endpoint: Seq<char>,
    start: GasPriceNonce,
    nonce: Felt,
    counting: GasPriceBlock,
    block_number: u64,
    last: GasPriceSimulation<I, E>,
    outcome: Result<TransactionSimulationInfo<I>, EthApiError<E>>,
    r: Result<U256, EthApiError<E>>,
)
    requires
        client.constants.gateway_url == Some(base),
        url_joined(url_text(base), "simulate_transaction"@) == Ok::<Seq<char>, Seq<char>>(endpoint),
        call_ensures(KakarotClient::<P>::gas_price::<E>, (client,), Step::Pending(start)),
        call_ensures(GasPriceNonce::resume::<E>, (start, Ok(nonce)), Step::Pending(counting)),
        call_ensures(
            GasPriceBlock::resume::<P, I, E>,
            (counting, client, Ok(block_number)),
            Step::Pending(last),
        ),
        call_ensures(GasPriceSimulation::<I, E>::resume, (last, outcome), r),
    ensures
        counting.transaction.sender_address@ == client.constants.gas_price_account@,
        counting.transaction.nonce@ == nonce@,
        counting.transaction.max_fee@ == 0,
        counting.transaction.signature@.len() == 0,
        counting.transaction.is_query,
        counting.transaction.calldata@.len() == start.calldata@.len(),
        forall|i: int|
            0 <= i < start.calldata@.len() ==> (#[trigger] counting.transaction.calldata@[i])@
                == start.calldata@[i]@,
        last.simulation matches Step::Pending(post) && {
            &&& url_text(post.url) == url_with_query_pair(
                url_with_query_pair(endpoint, "blockNumber"@, decimal_text(block_number as nat)),
                "skipValidate"@,
                "true"@,
            )
            &&& json_strings(post.body)["sender_address"@] == hex_text(
                client.constants.gas_price_account@,
            )
            &&& json_strings(post.body)["nonce"@] == hex_text(nonce@)
            &&& json_strings(post.body)["max_fee"@] == hex_text(0)
            &&& json_strings(post.body)["type"@] == "INVOKE_FUNCTION"@
            &&& json_strings(post.body)["version"@] == hex_text((pow2(128) + 1) as nat)
            &&& json_string_lists(post.body)["signature"@].len() == 0
            &&& json_string_lists(post.body)["calldata"@].len() == start.calldata@.len()
            &&& forall|i: int|
                0 <= i < start.calldata@.len() ==> json_string_lists(post.body)["calldata"@][i]
                    == hex_text((#[trigger] start.calldata@[i])@)
        },
        outcome matches Ok(info) ==> r matches Ok(price) && price.hi == 0 && price.lo
            == info.fee_estimation.gas_price,
        outcome matches Err(e) ==> r == Err::<U256, EthApiError<E>>(e),
{
    let t = counting.transaction;
    assert(t@.calldata.len() == start.calldata@.len() && t@.signature.len() == 0);
    assert(t.calldata@.len() == t@.calldata.len());
    assert(t.signature@.len() == t@.signature.len());
    assert forall|i: int| 0 <= i < start.calldata@.len() implies (#[trigger] t.calldata@[i])@
        == start.calldata@[i]@ by {
        assert(t@.calldata[i] == t.calldata@[i]@);
        assert(t@.calldata[i] == start.calldata@[i]@);
    }
    simulation_posts_the_transaction(
        client.constants,
        base,
        t@,
        block_number,
        true,
        last.simulation,
    );
    let body = last.simulation->Pending_0.body;
    assert forall|i: int| 0 <= i < start.calldata@.len() implies json_string_lists(
        body,
    )["calldata"@][i] == hex_text((#[trigger] start.calldata@[i])@) by {
        assert(t@.calldata[i] == start.calldata@[i]@);
    }
}

/// For the gas price, a gateway whose URL takes no reference, or no gateway at all, is not asked: the
/// simulation has failed, or has the fixed fee.
pub proof fn gas_price_asks_only_a_gateway<P, I, E>(
    client: &KakarotClient<P>,
    counting: GasPriceBlock,
    block_number: u64,
    last: GasPriceSimulation<I, E>,
)
    requires
        call_ensures(
            GasPriceBlock::resume::<P, I, E>,
            (counting, client, Ok(block_number)),
            Step::Pending(last),
        ),
    ensures
        client.constants.gateway_url matches Some(base) ==> (url_joined(
            url_text(base),
            "simulate_transaction"@,
        ) matches Err(text) ==> last.simulation matches Step::Done(
            Err(EthApiError::FeederGatewayError(e)),
        ) && e@ == "gateway url parsing error: "@ + text),
        client.constants.gateway_url is None ==> {
            let gas = client.constants.estimate_gas;
            let price = client.constants.max_fee@;
            if gas.hi != 0 || gas.lo > u64::MAX {
                last.simulation matches Step::Done(
                    Err(EthApiError::ConversionError(ConversionError::UintConversionError(o))),
                ) && o.bits == 256 && o.wrapped == gas.lo % 0x1_0000_0000_0000_0000u128 && o.max
                    == u64::MAX
            } else if price > u64::MAX || gas.lo * price > u64::MAX {
                last.simulation matches Step::Done(
                    Err(EthApiError::ConversionError(ConversionError::FeltOutOfRange)),
                )
            } else {
                last.simulation matches Step::Done(Ok(info)) && {
                    &&& info.fee_estimation.gas_usage == gas.lo
                    &&& info.fee_estimation.gas_price == price
                    &&& info.fee_estimation.overall_fee == gas.lo * price
                    &&& info.fee_estimation.unit == FeeUnit::Wei
                }
            }
        },
{
    let transaction = counting.transaction@;
    if client.constants.gateway_url is Some {
        simulation_posts_the_transaction(
            client.constants,
            client.constants.gateway_url->Some_0,
            transaction,
            block_number,
            true,
            last.simulation,
        );
    } else {
        simulation_without_a_gateway_is_fixed(
            client.constants,
            transaction,
            block_number,
            true,
            last.simulation,
        );
    }
}

/// A failure on the way to the gas price is the outcome, and without one the lookup goes on.
pub proof fn gas_price_fails_with_its_steps<P, I, E>(
    client: &KakarotClient<P>,
    start: GasPriceNonce,
    nonce: Result<Felt, ProviderError<E>>,
    after_nonce: Step<GasPriceBlock, U256, E>,
    counting: GasPriceBlock,
    block_number: Result<u64, ProviderError<E>>,
    after_block: Step<GasPriceSimulation<I, E>, U256, E>,
)
    requires
        call_ensures(GasPriceNonce::resume::<E>, (start, nonce), after_nonce),
        call_ensures(
            GasPriceBlock::resume::<P, I, E>,
            (counting, client, block_number),
            after_block,
        ),
    ensures
        nonce matches Err(e) ==> after_nonce == Step::<GasPriceBlock, U256, E>::Done(
            Err(EthApiError::RequestError(e)),
        ),
        nonce is Ok ==> after_nonce is Pending,
        block_number matches Err(e) ==> after_block == Step::<
            GasPriceSimulation<I, E>,
            U256,
            E,
        >::Done(Err(EthApiError::RequestError(e))),
        block_number is Ok ==> after_block is Pending,
{
}

/// Only networks that are reached by a gateway have one.
pub proof fn other_networks_have_no_gateway(network: Network)
    ensures
        network.has_gateway() <==> network is MainnetGateway || network is Goerli1Gateway
            || network is Goerli2Gateway,
{
}

} // verus!
