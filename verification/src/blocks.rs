//! What the client reads of blocks and their transactions.
use crate::address::H256;
use crate::block::{
    BlockId, ConvertBlockId, ConvertedBlockId, MaybePendingBlock,
    MaybePendingBlockWithTxs, StarknetBlockId,
};
use crate::bytes::be_value;
use crate::client::KakarotClient;
use crate::error::{
    ConversionError, EthApiError, MaybeUnknownErrorCode, ProviderError, StarknetError,
    StarknetErrorWithMessage,
};
use crate::felt::Felt;
use crate::step::Step;
use crate::transaction::{MaybePendingTransactionReceipt, TransactionReceipt};
use crate::uint::U256;
use vstd::prelude::*;

verus! {

/// The request for the number of a block.
#[derive(Clone, Copy, Debug)]
pub enum BlockNumberQuery {
    /// The number of the latest block is requested.
    Latest,
    /// The block is requested.
    ByHash(StarknetBlockId),
}

/// The request for a block, in the form that its conversion needs.
#[derive(Clone, Copy, Debug)]
pub enum EthBlockQuery {
    WithTxs(StarknetBlockId),
    WithTxHashes(StarknetBlockId),
}

/// The request to convert the Starknet block `block` to an Ethereum block. The reply is the
/// outcome.
#[derive(Debug)]
pub struct ToEthBlock<B> {
    pub block: B,
}

/// The request to convert the Starknet transaction `transaction` to an Ethereum transaction at
/// the place in the chain that the other fields give.
#[derive(Debug)]
pub struct ToEthTransaction<T> {
    pub transaction: T,
    pub block_hash: Option<H256>,
    pub block_number: Option<U256>,
    pub transaction_index: Option<U256>,
}

/// The request to convert each of a block's transactions to an Ethereum transaction.
#[derive(Debug)]
pub struct FilterTransactions<T> {
    pub conversions: Vec<ToEthTransaction<T>>,
}

/// The transactions of an Ethereum block.
#[derive(Debug)]
pub enum BlockTransactions<X> {
    Full(Vec<X>),
    Hashes(Vec<H256>),
    Uncle,
}

/// An operation that counts the transactions of a block.
#[derive(Clone, Copy, Debug)]
pub struct TransactionCount {}

/// The request for the block whose transactions are counted.
#[derive(Clone, Copy, Debug)]
pub struct CountedBlock {
    pub block_id: StarknetBlockId,
}

/// The request to convert the transactions that are counted.
#[derive(Debug)]
pub struct CountedTransactions<T> {
    pub filter: FilterTransactions<T>,
}

/// An operation that looks up a transaction by its place in a block.
#[derive(Clone, Copy, Debug)]
pub struct TransactionByIndex {
    pub index: u64,
}

/// The request for the transaction at a place in a block.
#[derive(Clone, Copy, Debug)]
pub struct TransactionQuery {
    pub block_id: StarknetBlockId,
    pub index: u64,
}

/// The request for the hash of `transaction`.
#[derive(Debug)]
pub struct TransactionHashQuery<T> {
    pub transaction: T,
    pub index: u64,
}

/// The request for the receipt of the transaction with the hash `transaction_hash`.
#[derive(Debug)]
pub struct ReceiptQuery<T> {
    pub transaction_hash: Felt,
    pub transaction: T,
    pub index: u64,
}

/// How the number of the block `block_id` is found: a number needs no request.
pub open spec fn block_number_step<E>(block_id: StarknetBlockId) -> Step<BlockNumberQuery, u64, E> {
    match block_id {
        StarknetBlockId::Number(n) => Step::Done(Ok(n)),
        StarknetBlockId::Tag(_) => Step::Pending(BlockNumberQuery::Latest),
        StarknetBlockId::Hash(_) => Step::Pending(BlockNumberQuery::ByHash(block_id)),
    }
}

/// Whether `place` is the place in the chain that `receipt` gives: an invoke transaction that is
/// in a block has that block's hash and number, and no other transaction has a place.
pub open spec fn is_place_of(
    place: (Option<H256>, Option<U256>),
    receipt: MaybePendingTransactionReceipt,
) -> bool {
    match receipt {
        MaybePendingTransactionReceipt::Receipt(
            TransactionReceipt::Invoke { block_hash, block_number },
        ) => {
            &&& place.0 matches Some(hash) && be_value(hash.bytes@) == block_hash@
            &&& place.1 matches Some(number) && number@ == block_number
        },
        _ => place.0 is None && place.1 is None,
    }
}

/// The values of the successes among `results`, in order.
pub open spec fn successes<X, E>(results: Seq<Result<X, E>>) -> Seq<X>
    decreases results.len(),
{
    if results.len() == 0 {
        Seq::empty()
    } else {
        let before = successes(results.drop_last());
        match results.last() {
            Ok(value) => before.push(value),
            Err(_) => before,
        }
    }
}

/// There are as many successes as there are results, where and only where none failed.
pub proof fn successes_are_counted<X, E>(results: Seq<Result<X, E>>)
    ensures
        successes(results).len() <= results.len(),
        successes(results).len() == results.len() <==> (forall|i: int|
            0 <= i < results.len() ==> (#[trigger] results[i]) is Ok),
    decreases results.len(),
{
    if results.len() > 0 {
        successes_are_counted(results.drop_last());
        let n = results.len() - 1;
        if forall|i: int| 0 <= i < results.len() ==> (#[trigger] results[i]) is Ok {
            assert(results[n] is Ok);
            assert forall|i: int| 0 <= i < n implies (#[trigger] results.drop_last()[i]) is Ok by {
                assert(results[i] is Ok);
            }
        }
        if successes(results).len() == results.len() {
            assert forall|i: int| 0 <= i < results.len() implies (#[trigger] results[i]) is Ok by {
                if i < n {
                    assert(results.drop_last()[i] is Ok);
                }
            }
        }
    }
}

/// Keeps the values of the successes among `results`, in order.
fn keep_successes<X, E>(results: Vec<Result<X, E>>) -> (kept: Vec<X>)
    ensures
        kept@ == successes(results@),
{
    let ghost all = results@;
    let mut kept: Vec<X> = Vec::new();
    for result in iter: results
        invariant
            iter.seq() == all,
            kept@ == successes(all.take(iter.index() as int)),
    {
        assert(all.take(iter.index() + 1).drop_last() =~= all.take(iter.index() as int));
        match result {
            Ok(value) => {
                kept.push(value);
            },
            Err(_) => {},
        }
    }
    assert(all.take(all.len() as int) =~= all);
    kept
}

/// Whether `filter` converts each of `transactions`, in order, at the same place in the chain.
pub open spec fn converts_each<T>(
    filter: FilterTransactions<T>,
    transactions: Seq<T>,
    block_hash: Option<H256>,
    block_number: Option<U256>,
) -> bool {
    &&& filter.conversions@.len() == transactions.len()
    &&& forall|i: int|
        0 <= i < transactions.len() ==> #[trigger] filter.conversions@[i] == (ToEthTransaction {
            transaction: transactions[i],
            block_hash,
            block_number,
            transaction_index: None,
        })
}

/// Whether `filter` converts each transaction of `block`, in order. A block that is not pending
/// hands its hash and its number to its transactions.
pub open spec fn converts_block<T>(
    filter: FilterTransactions<T>,
    block: MaybePendingBlockWithTxs<T>,
) -> bool {
    match block {
        MaybePendingBlockWithTxs::PendingBlock { transactions } => converts_each(
            filter,
            transactions@,
            None,
            None,
        ),
        MaybePendingBlockWithTxs::Block { block_hash, block_number, transactions } => exists|
            hash: H256,
            number: U256,
        |
            {
                &&& be_value(hash.bytes@) == block_hash@
                &&& number@ == block_number
                &&& #[trigger] converts_each(filter, transactions@, Some(hash), Some(number))
            },
    }
}

impl<P> KakarotClient<P> {
    /// Returns the number of the Starknet block that a block id names.
    pub fn map_block_id_to_block_number<E>(&self, block_id: &StarknetBlockId) -> (step: Step<
        BlockNumberQuery,
        u64,
        E,
    >)
        ensures
            step == block_number_step::<E>(*block_id),
    {
        match block_id {
            StarknetBlockId::Number(n) => Step::Done(Ok(*n)),
            StarknetBlockId::Tag(_) => Step::Pending(BlockNumberQuery::Latest),
            StarknetBlockId::Hash(_) => Step::Pending(BlockNumberQuery::ByHash(*block_id)),
        }
    }

    /// Returns the Ethereum block that a Starknet block id names, with its transactions or with
    /// their hashes only.
    pub fn get_eth_block_from_starknet_block(
        &self,
        block_id: StarknetBlockId,
        hydrated_tx: bool,
    ) -> (request: EthBlockQuery)
        ensures
            request == (if hydrated_tx {
                EthBlockQuery::WithTxs(block_id)
            } else {
                EthBlockQuery::WithTxHashes(block_id)
            }),
    {
        if hydrated_tx {
            EthBlockQuery::WithTxs(block_id)
        } else {
            EthBlockQuery::WithTxHashes(block_id)
        }
    }

    /// Returns the Ethereum transactions among Starknet transactions: those that can be converted.
    pub fn filter_starknet_into_eth_txs<T>(
        &self,
        initial_transactions: Vec<T>,
        block_hash: Option<H256>,
        block_number: Option<U256>,
    ) -> (request: FilterTransactions<T>)
        ensures
            converts_each(request, initial_transactions@, block_hash, block_number),
    {
        let ghost all = initial_transactions@;
        let mut conversions: Vec<ToEthTransaction<T>> = Vec::new();
        for transaction in iter: initial_transactions
            invariant
                iter.seq() == all,
                conversions@.len() == iter.index(),
                forall|i: int|
                    0 <= i < iter.index() ==> #[trigger] conversions@[i] == (ToEthTransaction {
                        transaction: all[i],
                        block_hash,
                        block_number,
                        transaction_index: None,
                    }),
        {
            conversions.push(
                ToEthTransaction { transaction, block_hash, block_number, transaction_index: None },
            );
        }
        FilterTransactions { conversions }
    }

    /// Returns the number of Ethereum transactions in a block.
    pub fn get_transaction_count_by_block(&self, block_id: BlockId) -> (request: ConvertBlockId<
        TransactionCount,
    >)
        ensures
            request == (ConvertBlockId { block_id, operation: TransactionCount {  } }),
    {
        ConvertBlockId { block_id, operation: TransactionCount {  } }
    }

    /// Returns the Ethereum transaction at an index in a block.
    pub fn transaction_by_block_id_and_index(
        &self,
        block_id: BlockId,
        tx_index: usize,
    ) -> (request: ConvertBlockId<TransactionByIndex>)
        ensures
            request == (ConvertBlockId {
                block_id,
                operation: TransactionByIndex { index: tx_index as u64 },
            }),
    {
        ConvertBlockId { block_id, operation: TransactionByIndex { index: tx_index as u64 } }
    }
}

/// The number of the latest block, as the provider gave it.
pub fn latest_block_number<E>(reply: Result<u64, ProviderError<E>>) -> (r: Result<
    u64,
    EthApiError<E>,
>)
    ensures
        r == (match reply {
            Ok(n) => Ok::<u64, EthApiError<E>>(n),
            Err(e) => Err(EthApiError::RequestError(e)),
        }),
{
    match reply {
        Ok(n) => Ok(n),
        Err(e) => Err(EthApiError::RequestError(e)),
    }
}

/// The number of a block that was requested by its hash. A pending block has none.
pub fn number_of_block<E>(reply: Result<MaybePendingBlock, ProviderError<E>>) -> (r: Result<
    u64,
    EthApiError<E>,
>)
    ensures
        match reply {
            Ok(MaybePendingBlock::Block { block_number }) => r == Ok::<u64, EthApiError<E>>(
                block_number,
            ),
            Ok(MaybePendingBlock::PendingBlock) => r matches Err(
                EthApiError::RequestError(ProviderError::StarknetError(e)),
            ) && e.code == MaybeUnknownErrorCode::Known(StarknetError::BlockNotFound)
                && e.message@ == Seq::<char>::empty(),
            Err(e) => r == Err::<u64, EthApiError<E>>(EthApiError::RequestError(e)),
        },
{
    match reply {
        Ok(MaybePendingBlock::Block { block_number }) => Ok(block_number),
        Ok(MaybePendingBlock::PendingBlock) => Err(
            EthApiError::RequestError(
                ProviderError::StarknetError(
                    StarknetErrorWithMessage {
                        code: MaybeUnknownErrorCode::Known(StarknetError::BlockNotFound),
                        message: String::new(),
                    },
                ),
            ),
        ),
        Err(e) => Err(EthApiError::RequestError(e)),
    }
}

impl EthBlockQuery {
    /// Asks for the conversion of the block in the reply.
    pub fn resume<B, R, E>(self, reply: Result<B, ProviderError<E>>) -> (step: Step<
        ToEthBlock<B>,
        R,
        E,
    >)
        ensures
            step == (match reply {
                Ok(block) => Step::<ToEthBlock<B>, R, E>::Pending(ToEthBlock { block }),
                Err(e) => Step::Done(Err(EthApiError::RequestError(e))),
            }),
    {
        match reply {
            Ok(block) => Step::Pending(ToEthBlock { block }),
            Err(e) => Step::Done(Err(EthApiError::RequestError(e))),
        }
    }
}

impl<T> FilterTransactions<T> {
    /// Keeps the transactions that could be converted, in order.
    pub fn resume<X, E>(self, results: Vec<Result<X, EthApiError<E>>>) -> (transactions:
        BlockTransactions<X>)
        ensures
            transactions matches BlockTransactions::Full(kept) && kept@ == successes(results@),
    {
        BlockTransactions::Full(keep_successes(results))
    }
}

impl<X> BlockTransactions<X> {
    /// The number of full transactions.
    pub open spec fn count(self) -> nat {
        match self {
            BlockTransactions::Full(transactions) => transactions@.len(),
            _ => 0,
        }
    }

    /// Returns the number of full transactions.
    pub fn len(&self) -> (n: usize)
        ensures
            n == self.count(),
    {
        match self {
            BlockTransactions::Full(transactions) => transactions.len(),
            BlockTransactions::Hashes(_) => 0,
            BlockTransactions::Uncle => 0,
        }
    }
}

impl ConvertBlockId<TransactionCount> {
    /// Asks for the block.
    pub fn resume<E>(self, converted: ConvertedBlockId) -> (step: Step<CountedBlock, u64, E>)
        ensures
            step == (match converted {
                Ok(block_id) => Step::<CountedBlock, u64, E>::Pending(CountedBlock { block_id }),
                Err(e) => Step::Done(Err(EthApiError::ConversionError(e))),
            }),
    {
        match converted {
            Ok(block_id) => Step::Pending(CountedBlock { block_id }),
            Err(e) => Step::Done(Err(EthApiError::ConversionError(e))),
        }
    }
}

impl CountedBlock {
    /// Asks for the conversion of the block's transactions. A block that is not pending hands its
    /// hash and its number to them.
    pub fn resume<P, T, E>(
        self,
        client: &KakarotClient<P>,
        reply: Result<MaybePendingBlockWithTxs<T>, ProviderError<E>>,
    ) -> (step: Step<CountedTransactions<T>, u64, E>)
        ensures
            match reply {
                Err(e) => step == Step::<CountedTransactions<T>, u64, E>::Done(
                    Err(EthApiError::RequestError(e)),
                ),
                Ok(block) => step matches Step::Pending(request) && converts_block(
                    request.filter,
                    block,
                ),
            },
    {
        match reply {
            Err(e) => Step::Done(Err(EthApiError::RequestError(e))),
            Ok(block) => {
                let filter = match block {
                    MaybePendingBlockWithTxs::PendingBlock { transactions } => {
                        client.filter_starknet_into_eth_txs(transactions, None, None)
                    },
                    MaybePendingBlockWithTxs::Block { block_hash, block_number, transactions } => {
                        let hash = H256::from_felt(block_hash);
                        let number = U256::from_u64(block_number);
                        client.filter_starknet_into_eth_txs(
                            transactions,
                            Some(hash),
                            Some(number),
                        )
                    },
                };
                Step::Pending(CountedTransactions { filter })
            },
        }
    }
}

impl<T> CountedTransactions<T> {
    /// The number of transactions that could be converted. This is the outcome.
    pub fn resume<X, E>(self, results: Vec<Result<X, EthApiError<E>>>) -> (count: u64)
        ensures
            count == successes(results@).len(),
    {
        self.filter.resume(results).len() as u64
    }
}

impl ConvertBlockId<TransactionByIndex> {
    /// Asks for the Starknet transaction.
    pub fn resume<X, E>(self, converted: ConvertedBlockId) -> (step: Step<TransactionQuery, X, E>)
        ensures
            step == (match converted {
                Ok(block_id) => Step::<TransactionQuery, X, E>::Pending(
                    TransactionQuery { block_id, index: self.operation.index },
                ),
                Err(e) => Step::Done(Err(EthApiError::ConversionError(e))),
            }),
    {
        match converted {
            Ok(block_id) => Step::Pending(
                TransactionQuery { block_id, index: self.operation.index },
            ),
            Err(e) => Step::Done(Err(EthApiError::ConversionError(e))),
        }
    }
}

impl TransactionQuery {
    /// Asks for the hash of the transaction in the reply.
    pub fn resume<T, X, E>(self, reply: Result<T, ProviderError<E>>) -> (step: Step<
        TransactionHashQuery<T>,
        X,
        E,
    >)
        ensures
            step == (match reply {
                Ok(transaction) => Step::<TransactionHashQuery<T>, X, E>::Pending(
                    TransactionHashQuery { transaction, index: self.index },
                ),
                Err(e) => Step::Done(Err(EthApiError::RequestError(e))),
            }),
    {
        match reply {
            Ok(transaction) => Step::Pending(
                TransactionHashQuery { transaction, index: self.index },
            ),
            Err(e) => Step::Done(Err(EthApiError::RequestError(e))),
        }
    }
}

impl<T> TransactionHashQuery<T> {
    /// Asks for the receipt of the transaction.
    pub fn resume<X, E>(self, reply: Result<Felt, ConversionError>) -> (step: Step<
        ReceiptQuery<T>,
        X,
        E,
    >)
        ensures
            step == (match reply {
                Ok(transaction_hash) => Step::<ReceiptQuery<T>, X, E>::Pending(
                    ReceiptQuery {
                        transaction_hash,
                        transaction: self.transaction,
                        index: self.index,
                    },
                ),
                Err(e) => Step::Done(Err(EthApiError::ConversionError(e))),
            }),
    {
        match reply {
            Ok(transaction_hash) => Step::Pending(
                ReceiptQuery {
                    transaction_hash,
                    transaction: self.transaction,
                    index: self.index,
                },
            ),
            Err(e) => Step::Done(Err(EthApiError::ConversionError(e))),
        }
    }
}

impl<T> ReceiptQuery<T> {
    /// Asks for the conversion of the transaction, at the place in the chain that its receipt
    /// gives. The reply to that request is the outcome.
    pub fn resume<X, E>(
        self,
        reply: Result<MaybePendingTransactionReceipt, ProviderError<E>>,
    ) -> (step: Step<ToEthTransaction<T>, X, E>)
        ensures
            match reply {
                Err(e) => step == Step::<ToEthTransaction<T>, X, E>::Done(
                    Err(EthApiError::RequestError(e)),
                ),
                Ok(receipt) => step matches Step::Pending(request) && {
                    &&& request.transaction == self.transaction
                    &&& is_place_of((request.block_hash, request.block_number), receipt)
                    &&& request.transaction_index matches Some(index) && index@ == self.index
                },
            },
    {
        match reply {
            Err(e) => Step::Done(Err(EthApiError::RequestError(e))),
            Ok(receipt) => {
                let (block_hash, block_number) = match receipt {
                    MaybePendingTransactionReceipt::Receipt(
                        TransactionReceipt::Invoke { block_hash, block_number },
                    ) => (Some(H256::from_felt(block_hash)), Some(U256::from_u64(block_number))),
                    _ => (None, None),
                };
                Step::Pending(
                    ToEthTransaction {
                        transaction: self.transaction,
                        block_hash,
                        block_number,
                        transaction_index: Some(U256::from_u64(self.index)),
                    },
                )
            },
        }
    }
}

} // verus!
