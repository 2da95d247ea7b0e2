//! What is read of blocks and their transactions.
use crate::address::H256;
use crate::block::{
    BlockId, ConvertBlockId, ConvertedBlockId, MaybePendingBlock, MaybePendingBlockWithTxs,
    StarknetBlockId,
};
use crate::blocks::{
    latest_block_number, number_of_block, successes, BlockNumberQuery, BlockTransactions,
    CountedBlock, CountedTransactions, EthBlockQuery, FilterTransactions, ReceiptQuery, ToEthBlock,
    ToEthTransaction, TransactionByIndex, TransactionCount, TransactionHashQuery, TransactionQuery,
};
use crate::bytes::be_value;
use crate::client::KakarotClient;
use crate::error::{
    ConversionError, EthApiError, MaybeUnknownErrorCode, ProviderError, StarknetError,
};
use crate::felt::Felt;
use crate::step::Step;
use crate::transaction::{MaybePendingTransactionReceipt, TransactionReceipt};
use crate::uint::U256;
use vstd::prelude::*;

verus! {

/// The number of a block is the number in its id; for a tag, that of the latest block; for a hash,
/// that of the block with it.
pub proof fn block_number_is_found_by_the_kind_of_id<P, E>(
    client: &KakarotClient<P>,
    block_id: &StarknetBlockId,
    step: Step<BlockNumberQuery, u64, E>,
)
    requires
        call_ensures(
            KakarotClient::<P>::map_block_id_to_block_number::<E>,
            (client, block_id),
            step,
        ),
    ensures
        block_id matches StarknetBlockId::Number(n) ==> step == Step::<
            BlockNumberQuery,
            u64,
            E,
        >::Done(Ok(*n)),
        block_id is Tag ==> step == Step::<BlockNumberQuery, u64, E>::Pending(
            BlockNumberQuery::Latest,
        ),
        block_id is Hash ==> step == Step::<BlockNumberQuery, u64, E>::Pending(
            BlockNumberQuery::ByHash(*block_id),
        ),
{
}

/// The latest block's number is what the node gave, and so is its failure.
pub proof fn latest_block_number_is_the_reply<E>(
    reply: Result<u64, ProviderError<E>>,
    r: Result<u64, EthApiError<E>>,
)
    requires
        call_ensures(latest_block_number::<E>, (reply,), r),
    ensures
        reply matches Ok(n) ==> r == Ok::<u64, EthApiError<E>>(n),
        reply matches Err(e) ==> r == Err::<u64, EthApiError<E>>(EthApiError::RequestError(e)),
{
}

/// A block that is found by its hash has the number in it. A pending block counts as not found.
pub proof fn pending_blocks_have_no_number<E>(
    reply: Result<MaybePendingBlock, ProviderError<E>>,
    r: Result<u64, EthApiError<E>>,
)
    requires
        call_ensures(number_of_block::<E>, (reply,), r),
    ensures
        reply matches Ok(MaybePendingBlock::Block { block_number }) ==> r == Ok::<
            u64,
            EthApiError<E>,
        >(block_number),
        reply matches Ok(MaybePendingBlock::PendingBlock) ==> r matches Err(
            EthApiError::RequestError(ProviderError::StarknetError(inner)),
        ) && inner.code == MaybeUnknownErrorCode::Known(StarknetError::BlockNotFound)
            && inner.message@.len() == 0,
        reply matches Err(e) ==> r == Err::<u64, EthApiError<E>>(EthApiError::RequestError(e)),
{
}

/// The block that was named is fetched, with its transactions exactly where they were asked for,
/// and the block in the reply is the one that is converted.
pub proof fn eth_block_is_made_of_the_block_named<P, B, R, E>(
    client: &KakarotClient<P>,
    block_id: StarknetBlockId,
    hydrated_tx: bool,
    request: EthBlockQuery,
    reply: Result<B, ProviderError<E>>,
    step: Step<ToEthBlock<B>, R, E>,
)
    requires
        call_ensures(
            KakarotClient::<P>::get_eth_block_from_starknet_block,
            (client, block_id, hydrated_tx),
            request,
        ),
        call_ensures(EthBlockQuery::resume::<B, R, E>, (request, reply), step),
    ensures
        hydrated_tx ==> request == EthBlockQuery::WithTxs(block_id),
        !hydrated_tx ==> request == EthBlockQuery::WithTxHashes(block_id),
        reply matches Ok(block) ==> step matches Step::Pending(next) && next.block == block,
        reply matches Err(e) ==> step == Step::<ToEthBlock<B>, R, E>::Done(
            Err(EthApiError::RequestError(e)),
        ),
{
}

/// The places of the successes among `results`, in order.
spec fn places_of_successes<X, E>(results: Seq<Result<X, E>>) -> Seq<int>
    decreases results.len(),
{
    if results.len() == 0 {
        Seq::empty()
    } else {
        let before = places_of_successes(results.drop_last());
        if results.last() is Ok {
            before.push(results.len() - 1)
        } else {
            before
        }
    }
}

/// The places of the successes rise, they are all places of successes and there is no other, and
/// the kept values stand at them.
proof fn lemma_places_of_successes<X, E>(results: Seq<Result<X, E>>)
    ensures
        ({
            let places = places_of_successes(results);
            let kept = successes(results);
            &&& places.len() == kept.len()
            &&& forall|k: int, l: int| 0 <= k < l < places.len() ==> places[k] < places[l]
            &&& forall|k: int|
                #![trigger places[k]]
                0 <= k < places.len() ==> {
                    &&& 0 <= places[k] < results.len()
                    &&& results[places[k]] == Ok::<X, E>(kept[k])
                }
            &&& forall|i: int|
                0 <= i < results.len() && (#[trigger] results[i]) is Ok ==> places.contains(i)
        }),
    decreases results.len(),
{
    if results.len() > 0 {
        let init = results.drop_last();
        let n = results.len() - 1;
        let before = places_of_successes(init);
        let places = places_of_successes(results);
        lemma_places_of_successes(init);
        assert forall|k: int| #![trigger before[k]] 0 <= k < before.len() implies results[before[k]]
            == init[before[k]] && before[k] < n by {}
        assert forall|i: int| 0 <= i < results.len() && (#[trigger] results[i]) is Ok implies
            places.contains(i) by {
            if i < n {
                assert(init[i] is Ok);
                assert(before.contains(i));
                let k = choose|k: int| 0 <= k < before.len() && before[k] == i;
                assert(places[k] == i);
            } else {
                assert(places[places.len() - 1] == i);
            }
        }
    }
}

/// The number of kept values is the number of successes.
proof fn lemma_successes_are_filtered<X, E>(results: Seq<Result<X, E>>)
    ensures
        successes(results).len() == results.filter(|r: Result<X, E>| r is Ok).len(),
    decreases results.len(),
{
    reveal(Seq::filter);
    if results.len() > 0 {
        lemma_successes_are_filtered(results.drop_last());
    }
}

/// Each transaction, in order, is to be converted at the place in the chain that was given.
pub proof fn each_transaction_is_converted<P, T>(
    client: &KakarotClient<P>,
    transactions: Vec<T>,
    block_hash: Option<H256>,
    block_number: Option<U256>,
    request: FilterTransactions<T>,
)
    requires
        call_ensures(
            KakarotClient::<P>::filter_starknet_into_eth_txs::<T>,
            (client, transactions, block_hash, block_number),
            request,
        ),
    ensures
        request.conversions@.len() == transactions@.len(),
        forall|i: int|
            #![trigger request.conversions@[i]]
            0 <= i < transactions@.len() ==> {
                &&& request.conversions@[i].transaction == transactions@[i]
                &&& request.conversions@[i].block_hash == block_hash
                &&& request.conversions@[i].block_number == block_number
                &&& request.conversions@[i].transaction_index is None
            },
{
}

/// The transactions that could be converted are kept, and no others, in order: there are places
/// that rise, that are exactly those of the successes, and that hold the kept transactions.
pub proof fn converted_transactions_are_kept<T, X, E>(
    request: FilterTransactions<T>,
    results: Vec<Result<X, EthApiError<E>>>,
    transactions: BlockTransactions<X>,
)
    requires
        call_ensures(FilterTransactions::<T>::resume::<X, E>, (request, results), transactions),
    ensures
        transactions matches BlockTransactions::Full(kept) && kept@.len() == results@.filter(
            |r: Result<X, EthApiError<E>>| r is Ok,
        ).len() && exists|places: Seq<int>|
            {
                &&& #[trigger] places.len() == kept@.len()
                &&& forall|k: int, l: int| 0 <= k < l < places.len() ==> places[k] < places[l]
                &&& forall|k: int|
                    #![trigger places[k]]
                    0 <= k < places.len() ==> {
                        &&& 0 <= places[k] < results@.len()
                        &&& results@[places[k]] == Ok::<X, EthApiError<E>>(kept@[k])
                    }
                &&& forall|i: int|
                    0 <= i < results@.len() && (#[trigger] results@[i]) is Ok ==> places.contains(i)
            },
{
    lemma_places_of_successes(results@);
    lemma_successes_are_filtered(results@);
    let places = places_of_successes(results@);
    let kept = transactions->Full_0;
    assert(kept@ == successes(results@));
    assert(places.len() == kept@.len());
}

/// One more result adds one transaction at the end where it is a success, and changes nothing
/// where it is a failure.
pub proof fn one_more_result_adds_at_most_itself<T, X, E>(
    request: FilterTransactions<T>,
    other_request: FilterTransactions<T>,
    results: Vec<Result<X, EthApiError<E>>>,
    more: Vec<Result<X, EthApiError<E>>>,
    result: Result<X, EthApiError<E>>,
    before: BlockTransactions<X>,
    after: BlockTransactions<X>,
)
    requires
        more@ == results@.push(result),
        call_ensures(FilterTransactions::<T>::resume::<X, E>, (request, results), before),
        call_ensures(FilterTransactions::<T>::resume::<X, E>, (other_request, more), after),
    ensures
        before matches BlockTransactions::Full(x) && after matches BlockTransactions::Full(y)
            && match result {
            Ok(transaction) => y@ == x@.push(transaction),
            Err(_) => y@ == x@,
        },
{
    assert(more@.drop_last() =~= results@);
}

/// Only full transactions are counted.
pub proof fn full_transactions_are_counted<X>(transactions: &BlockTransactions<X>, n: usize)
    requires
        call_ensures(BlockTransactions::<X>::len, (transactions,), n),
    ensures
        transactions matches BlockTransactions::Full(full) ==> n == full@.len(),
        transactions is Full || n == 0,
{
}

/// The transactions of a block are counted in the block that the id stands for: each of them is to
/// be converted, in order, at the block's own hash and number unless it is pending, and the count
/// is the number of those that could be.
pub proof fn transactions_of_the_block_are_counted<P, T, X, E>(
    client: &KakarotClient<P>,
    block_id: BlockId,
    start: ConvertBlockId<TransactionCount>,
    starknet_block_id: StarknetBlockId,
    counted: CountedBlock,
    block: MaybePendingBlockWithTxs<T>,
    converting: CountedTransactions<T>,
    results: Vec<Result<X, EthApiError<E>>>,
    count: u64,
)
    requires
        call_ensures(
            KakarotClient::<P>::get_transaction_count_by_block,
            (client, block_id),
            start,
        ),
        call_ensures(
            ConvertBlockId::<TransactionCount>::resume::<E>,
            (start, Ok(starknet_block_id)),
            Step::Pending(counted),
        ),
        call_ensures(
            CountedBlock::resume::<P, T, E>,
            (counted, client, Ok(block)),
            Step::Pending(converting),
        ),
        call_ensures(CountedTransactions::<T>::resume::<X, E>, (converting, results), count),
    ensures
        start.block_id == block_id,
        counted.block_id == starknet_block_id,
        block matches MaybePendingBlockWithTxs::Block { block_hash, block_number, transactions }
            ==> {
            &&& converting.filter.conversions@.len() == transactions@.len()
            &&& forall|i: int|
                #![trigger converting.filter.conversions@[i]]
                0 <= i < transactions@.len() ==> {
                    let conversion = converting.filter.conversions@[i];
                    &&& conversion.transaction == transactions@[i]
                    &&& conversion.block_hash matches Some(hash) && be_value(hash.bytes@)
                        == block_hash@
                    &&& conversion.block_number matches Some(number) && number@ == block_number
                    &&& conversion.transaction_index is None
                }
        },
        block matches MaybePendingBlockWithTxs::PendingBlock { transactions } ==> {
            &&& converting.filter.conversions@.len() == transactions@.len()
            &&& forall|i: int|
                #![trigger converting.filter.conversions@[i]]
                0 <= i < transactions@.len() ==> {
                    let conversion = converting.filter.conversions@[i];
                    &&& conversion.transaction == transactions@[i]
                    &&& conversion.block_hash is None
                    &&& conversion.block_number is None
                    &&& conversion.transaction_index is None
                }
        },
        count == results@.filter(|r: Result<X, EthApiError<E>>| r is Ok).len(),
{
    lemma_successes_are_filtered(results@);
}

/// A failure on the way to a count is the outcome, and without one the count goes on.
pub proof fn count_fails_with_the_lookup<P, T, E>(
    client: &KakarotClient<P>,
    start: ConvertBlockId<TransactionCount>,
    converted: ConvertedBlockId,
    after_block_id: Step<CountedBlock, u64, E>,
    counted: CountedBlock,
    reply: Result<MaybePendingBlockWithTxs<T>, ProviderError<E>>,
    after_block: Step<CountedTransactions<T>, u64, E>,
)
    requires
        call_ensures(
            ConvertBlockId::<TransactionCount>::resume::<E>,
            (start, converted),
            after_block_id,
        ),
        call_ensures(CountedBlock::resume::<P, T, E>, (counted, client, reply), after_block),
    ensures
        converted matches Err(e) ==> after_block_id == Step::<CountedBlock, u64, E>::Done(
            Err(EthApiError::ConversionError(e)),
        ),
        converted is Ok ==> after_block_id is Pending,
        reply matches Err(e) ==> after_block == Step::<CountedTransactions<T>, u64, E>::Done(
            Err(EthApiError::RequestError(e)),
        ),
        reply is Ok ==> after_block is Pending,
{
}

/// A transaction is looked up at its index in the block that the id stands for. Its receipt is
/// asked for by its hash, and it is converted with its index and, where it is an invoke transaction
/// in a block, with the hash and the number of that block; no other has a place.
pub proof fn transaction_is_placed_by_its_receipt<P, T, X, E>(
    client: &KakarotClient<P>,
    block_id: BlockId,
    tx_index: usize,
    start: ConvertBlockId<TransactionByIndex>,
    starknet_block_id: StarknetBlockId,
    looking_up: TransactionQuery,
    transaction: T,
    hashing: TransactionHashQuery<T>,
    transaction_hash: Felt,
    receiving: ReceiptQuery<T>,
    receipt: MaybePendingTransactionReceipt,
    last: Step<ToEthTransaction<T>, X, E>,
)
    requires
        call_ensures(
            KakarotClient::<P>::transaction_by_block_id_and_index,
            (client, block_id, tx_index),
            start,
        ),
        call_ensures(
            ConvertBlockId::<TransactionByIndex>::resume::<X, E>,
            (start, Ok(starknet_block_id)),
            Step::Pending(looking_up),
        ),
        call_ensures(
            TransactionQuery::resume::<T, X, E>,
            (looking_up, Ok(transaction)),
            Step::Pending(hashing),
        ),
        call_ensures(
            TransactionHashQuery::<T>::resume::<X, E>,
            (hashing, Ok(transaction_hash)),
            Step::Pending(receiving),
        ),
        call_ensures(ReceiptQuery::<T>::resume::<X, E>, (receiving, Ok(receipt)), last),
    ensures
        start.block_id == block_id,
        looking_up.block_id == starknet_block_id,
        looking_up.index == tx_index,
        hashing.transaction == transaction,
        receiving.transaction_hash == transaction_hash,
        last matches Step::Pending(request) && {
            &&& request.transaction == transaction
            &&& request.transaction_index matches Some(index) && index.hi == 0 && index.lo
                == tx_index
            &&& match receipt {
                MaybePendingTransactionReceipt::Receipt(
                    TransactionReceipt::Invoke { block_hash, block_number },
                ) => {
                    &&& request.block_hash matches Some(hash) && be_value(hash.bytes@)
                        == block_hash@
                    &&& request.block_number matches Some(number) && number.hi == 0 && number.lo
                        == block_number
                },
                _ => request.block_hash is None && request.block_number is None,
            }
        },
{
}

/// A failure on the way to a transaction is the outcome, and without one the lookup goes on.
pub proof fn transaction_lookup_fails_with_its_steps<T, X, E>(
    start: ConvertBlockId<TransactionByIndex>,
    converted: ConvertedBlockId,
    after_block_id: Step<TransactionQuery, X, E>,
    looking_up: TransactionQuery,
    found: Result<T, ProviderError<E>>,
    after_lookup: Step<TransactionHashQuery<T>, X, E>,
    hashing: TransactionHashQuery<T>,
    hashed: Result<Felt, ConversionError>,
    after_hash: Step<ReceiptQuery<T>, X, E>,
    receiving: ReceiptQuery<T>,
    received: Result<MaybePendingTransactionReceipt, ProviderError<E>>,
    after_receipt: Step<ToEthTransaction<T>, X, E>,
)
    requires
        call_ensures(
            ConvertBlockId::<TransactionByIndex>::resume::<X, E>,
            (start, converted),
            after_block_id,
        ),
        call_ensures(TransactionQuery::resume::<T, X, E>, (looking_up, found), after_lookup),
        call_ensures(TransactionHashQuery::<T>::resume::<X, E>, (hashing, hashed), after_hash),
        call_ensures(ReceiptQuery::<T>::resume::<X, E>, (receiving, received), after_receipt),
    ensures
        converted matches Err(e) ==> after_block_id == Step::<TransactionQuery, X, E>::Done(
            Err(EthApiError::ConversionError(e)),
        ),
        converted is Ok ==> after_block_id is Pending,
        found matches Err(e) ==> after_lookup == Step::<TransactionHashQuery<T>, X, E>::Done(
            Err(EthApiError::RequestError(e)),
        ),
        found is Ok ==> after_lookup is Pending,
        hashed matches Err(e) ==> after_hash == Step::<ReceiptQuery<T>, X, E>::Done(
            Err(EthApiError::ConversionError(e)),
        ),
        hashed is Ok ==> after_hash is Pending,
        received matches Err(e) ==> after_receipt == Step::<ToEthTransaction<T>, X, E>::Done(
            Err(EthApiError::RequestError(e)),
        ),
        received is Ok ==> after_receipt is Pending,
{
}

} // verus!
