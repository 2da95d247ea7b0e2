//! Blocks, and the ways to name one.
use crate::address::H256;
use crate::error::ConversionError;
use crate::felt::Felt;
use vstd::prelude::*;

verus! {

/// An Ethereum block, by its number or by its place in the chain.
#[derive(Clone, Copy, Debug)]
pub enum BlockNumberOrTag {
    Latest,
    Finalized,
    Safe,
    Earliest,
    Pending,
    Number(u64),
}

/// An Ethereum block, by its hash, its number or its place in the chain.
#[derive(Clone, Copy, Debug)]
pub enum BlockId {
    Hash { block_hash: H256, require_canonical: Option<bool> },
    Number(BlockNumberOrTag),
}

/// The place of a block at the end of the Starknet chain.
#[derive(Clone, Copy, Debug, PartialEq, Eq, Structural)]
pub enum BlockTag {
    Latest,
    Pending,
}

/// A Starknet block, by its hash, its number or its place in the chain.
#[derive(Clone, Copy, Debug, PartialEq, Eq, Structural)]
pub enum StarknetBlockId {
    Hash(Felt),
    Number(u64),
    Tag(BlockTag),
}

/// A Starknet block with its transactions. `T` is a transaction.
#[derive(Debug)]
pub enum MaybePendingBlockWithTxs<T> {
    Block { block_hash: Felt, block_number: u64, transactions: Vec<T> },
    PendingBlock { transactions: Vec<T> },
}

/// A Starknet block without its transactions.
#[derive(Clone, Copy, Debug)]
pub enum MaybePendingBlock {
    Block { block_number: u64 },
    PendingBlock,
}

/// The request to convert `block_id` to the id of the Starknet block that it stands for. `S` is
/// the operation that goes on with it.
#[derive(Debug)]
pub struct ConvertBlockId<S> {
    pub block_id: BlockId,
    pub operation: S,
}

/// The reply to a request to convert a block id.
pub type ConvertedBlockId = Result<StarknetBlockId, ConversionError>;

} // verus!
