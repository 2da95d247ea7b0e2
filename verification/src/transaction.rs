//! Transactions, as far as the client reads and writes them.
use crate::address::{Address, H256};
use crate::felt::Felt;
use crate::uint::U256;
use vstd::prelude::*;

verus! {

/// A Starknet invoke transaction of version one, ready to be sent or simulated.
#[derive(Debug)]
pub struct BroadcastedInvokeTransaction {
    pub sender_address: Felt,
    pub calldata: Vec<Felt>,
    pub max_fee: Felt,
    pub signature: Vec<Felt>,
    pub nonce: Felt,
    /// Whether the transaction only serves a query and is invalid for execution.
    pub is_query: bool,
}

/// The canonical numbers of `felts`.
pub open spec fn numbers(felts: Seq<Felt>) -> Seq<nat> {
    felts.map_values(|felt: Felt| felt@)
}

/// What a Starknet invoke transaction says, in plain numbers.
#[verifier::ext_equal]
pub struct InvokeTransactionView {
    pub sender_address: nat,
    pub calldata: Seq<nat>,
    pub max_fee: nat,
    pub signature: Seq<nat>,
    pub nonce: nat,
    pub is_query: bool,
}

impl View for BroadcastedInvokeTransaction {
    type V = InvokeTransactionView;

    open spec fn view(&self) -> InvokeTransactionView {
        InvokeTransactionView {
            sender_address: self.sender_address@,
            calldata: numbers(self.calldata@),
            max_fee: self.max_fee@,
            signature: numbers(self.signature@),
            nonce: self.nonce@,
            is_query: self.is_query,
        }
    }
}

/// The receipt of a transaction that is in a block.
#[derive(Clone, Copy, Debug)]
pub enum TransactionReceipt {
    Invoke { block_hash: Felt, block_number: u64 },
    L1Handler,
    Declare,
    Deploy,
    DeployAccount,
}

/// The receipt of a transaction.
#[derive(Clone, Copy, Debug)]
pub enum MaybePendingTransactionReceipt {
    Receipt(TransactionReceipt),
    PendingReceipt,
}

/// What an Ethereum transaction does: it creates a contract or calls an address.
#[derive(Clone, Copy, Debug)]
pub enum TransactionKind {
    Create,
    Call(Address),
}

/// The slots of one contract that a transaction announces it will access.
#[derive(Debug)]
pub struct AccessListItem {
    pub address: Address,
    pub storage_keys: Vec<H256>,
}

/// An Ethereum transaction with a priority fee.
#[derive(Debug)]
pub struct TxEip1559 {
    pub chain_id: u64,
    pub nonce: u64,
    pub gas_limit: u64,
    pub max_fee_per_gas: u128,
    pub max_priority_fee_per_gas: u128,
    pub to: TransactionKind,
    pub value: u128,
    pub access_list: Vec<AccessListItem>,
    pub input: Vec<u8>,
}

/// The signature of an Ethereum transaction.
#[derive(Clone, Copy, Debug)]
pub struct Signature {
    pub r: U256,
    pub s: U256,
    pub odd_y_parity: bool,
}

/// The data of a call, under either of its names.
#[derive(Debug)]
pub struct CallInput {
    pub input: Option<Vec<u8>>,
    pub data: Option<Vec<u8>>,
}

/// A call as it is requested of the client.
#[derive(Debug)]
pub struct CallRequest {
    pub from: Option<Address>,
    pub to: Option<Address>,
    pub max_fee_per_gas: Option<U256>,
    pub max_priority_fee_per_gas: Option<U256>,
    pub gas: Option<U256>,
    pub value: Option<U256>,
    pub input: CallInput,
    pub chain_id: Option<u64>,
}

} // verus!
