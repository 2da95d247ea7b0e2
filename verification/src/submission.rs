//! The submission of transactions, and the wait for them.
use crate::address::H256;
use crate::bytes::be_value;
use crate::client::KakarotClient;
use crate::error::{EthApiError, ProviderError};
use crate::felt::Felt;
use crate::step::Step;
use crate::transaction::BroadcastedInvokeTransaction;
use vstd::prelude::*;

verus! {

/// The interval at which the client looks at a transaction that it waits for.
pub const POLL_INTERVAL: u64 = 1000;

/// The time after which the client no longer waits for a transaction.
pub const POLL_TIMEOUT: u64 = 15_000;

/// The request to wait until the transaction with the hash `transaction_hash` is confirmed: to
/// look at it at every `interval`, until `timeout`.
#[derive(Clone, Copy, Debug, PartialEq, Eq, Structural)]
pub struct WaitForTransaction {
    pub transaction_hash: Felt,
    pub interval: u64,
    pub timeout: u64,
}

/// The request to read `bytes` as a signed Ethereum transaction, and to make of it the Starknet
/// transaction that executes it.
#[derive(Debug)]
pub struct ToInvokeTransaction {
    pub bytes: Vec<u8>,
}

/// The request to add a transaction to the chain. The reply holds its hash.
#[derive(Debug)]
pub struct AddInvokeTransaction {
    pub transaction: BroadcastedInvokeTransaction,
}

/// The request to wait for a transaction that was sent.
#[derive(Clone, Copy, Debug)]
pub struct SentTransaction {
    pub wait: WaitForTransaction,
}

impl<P> KakarotClient<P> {
    /// Sends a raw Ethereum transaction to Kakarot, and returns its hash when it is confirmed.
    pub fn send_transaction(&self, bytes: Vec<u8>) -> (request: ToInvokeTransaction)
        ensures
            request == (ToInvokeTransaction { bytes }),
    {
        ToInvokeTransaction { bytes }
    }

    /// Waits until a transaction is confirmed. The reply is the outcome.
    pub fn wait_for_confirmation_on_l2(&self, transaction_hash: Felt) -> (request:
        WaitForTransaction)
        ensures
            request == (WaitForTransaction {
                transaction_hash,
                interval: POLL_INTERVAL,
                timeout: POLL_TIMEOUT,
            }),
    {
        WaitForTransaction { transaction_hash, interval: POLL_INTERVAL, timeout: POLL_TIMEOUT }
    }
}

impl ToInvokeTransaction {
    /// Adds the transaction in the reply to the chain.
    pub fn resume<E>(
        self,
        reply: Result<BroadcastedInvokeTransaction, EthApiError<E>>,
    ) -> (step: Step<AddInvokeTransaction, H256, E>)
        ensures
            step == (match reply {
                Ok(transaction) => Step::<AddInvokeTransaction, H256, E>::Pending(
                    AddInvokeTransaction { transaction },
                ),
                Err(e) => Step::Done(Err(e)),
            }),
    {
        match reply {
            Ok(transaction) => Step::Pending(AddInvokeTransaction { transaction }),
            Err(e) => Step::Done(Err(e)),
        }
    }
}

impl AddInvokeTransaction {
    /// What follows the reply: the wait for the transaction with the hash in it.
    pub open spec fn after<E>(self, reply: Result<Felt, ProviderError<E>>) -> Step<
        SentTransaction,
        H256,
        E,
    > {
        match reply {
            Ok(transaction_hash) => Step::Pending(
                SentTransaction {
                    wait: WaitForTransaction {
                        transaction_hash,
                        interval: POLL_INTERVAL,
                        timeout: POLL_TIMEOUT,
                    },
                },
            ),
            Err(e) => Step::Done(Err(EthApiError::RequestError(e))),
        }
    }

    /// Waits for the transaction with the hash in the reply.
    pub fn resume<P, E>(
        self,
        client: &KakarotClient<P>,
        reply: Result<Felt, ProviderError<E>>,
    ) -> (step: Step<SentTransaction, H256, E>)
        ensures
            step == self.after(reply),
    {
        match reply {
            Ok(transaction_hash) => Step::Pending(
                SentTransaction { wait: client.wait_for_confirmation_on_l2(transaction_hash) },
            ),
            Err(e) => Step::Done(Err(EthApiError::RequestError(e))),
        }
    }
}

impl SentTransaction {
    /// Whether `r` is what the wait comes to: the hash of the transaction that was waited for,
    /// where it was confirmed.
    pub open spec fn comes_to<E>(
        self,
        reply: Result<(), EthApiError<E>>,
        r: Result<H256, EthApiError<E>>,
    ) -> bool {
        match reply {
            Ok(_) => r matches Ok(hash) && be_value(hash.bytes@) == self.wait.transaction_hash@,
            Err(e) => r == Err::<H256, EthApiError<E>>(e),
        }
    }

    /// The hash of the transaction, when it is confirmed.
    pub fn resume<E>(self, reply: Result<(), EthApiError<E>>) -> (r: Result<H256, EthApiError<E>>)
        ensures
            self.comes_to(reply, r),
    {
        match reply {
            Ok(_) => Ok(H256::from_felt(self.wait.transaction_hash)),
            Err(e) => Err(e),
        }
    }
}

/// A hash is only returned for a transaction that was confirmed, and it is the hash with which
/// the node took that transaction.
pub proof fn sent_hash_is_confirmed<E>(
    adding: AddInvokeTransaction,
    added: Result<Felt, ProviderError<E>>,
    sent: SentTransaction,
    waited: Result<(), EthApiError<E>>,
    r: Result<H256, EthApiError<E>>,
)
    requires
        adding.after(added) == Step::<SentTransaction, H256, E>::Pending(sent),
        sent.comes_to(waited, r),
    ensures
        r is Ok <==> waited is Ok,
        r matches Ok(hash) ==> added matches Ok(transaction_hash) && be_value(hash.bytes@)
            == transaction_hash@ && sent.wait.transaction_hash == transaction_hash,
{
}

} // verus!
