//! How transactions are sent and waited for.
use crate::address::H256;
use crate::bytes::be_value;
use crate::client::KakarotClient;
use crate::error::{EthApiError, ProviderError};
use crate::felt::Felt;
use crate::step::Step;
use crate::submission::{
    AddInvokeTransaction, SentTransaction, ToInvokeTransaction, WaitForTransaction,
};
use crate::transaction::BroadcastedInvokeTransaction;
use vstd::prelude::*;

verus! {

/// A transaction is waited for by its own hash, at intervals of 1000 and for no longer than 15000.
pub proof fn wait_is_for_the_hash_given<P>(
    client: &KakarotClient<P>,
    transaction_hash: Felt,
    wait: WaitForTransaction,
)
    requires
        call_ensures(
            KakarotClient::<P>::wait_for_confirmation_on_l2,
            (client, transaction_hash),
            wait,
        ),
    ensures
        wait.transaction_hash == transaction_hash,
        wait.interval == 1000,
        wait.timeout == 15000,
{
}

/// The bytes that were given are read as they are, what they were read as is sent as it is, and the
/// transaction that the node took is the one that is waited for. Its hash, and only its hash, is
/// returned, exactly where the wait ended well; every failure is the outcome.
pub proof fn sent_transaction_is_the_one_waited_for<P, E>(
    client: &KakarotClient<P>,
    bytes: Vec<u8>,
    start: ToInvokeTransaction,
    read: Result<BroadcastedInvokeTransaction, EthApiError<E>>,
    after_read: Step<AddInvokeTransaction, H256, E>,
    added: Result<Felt, ProviderError<E>>,
    after_added: Step<SentTransaction, H256, E>,
    waited: Result<(), EthApiError<E>>,
    r: Result<H256, EthApiError<E>>,
)
    requires
        call_ensures(KakarotClient::<P>::send_transaction, (client, bytes), start),
        call_ensures(ToInvokeTransaction::resume::<E>, (start, read), after_read),
        after_read matches Step::Pending(adding) ==> call_ensures(
            AddInvokeTransaction::resume::<P, E>,
            (adding, client, added),
            after_added,
        ),
        after_read is Pending ==> (after_added matches Step::Pending(sent) ==> call_ensures(
            SentTransaction::resume::<E>,
            (sent, waited),
            r,
        )),
    ensures
        start.bytes == bytes,
        read matches Err(e) ==> after_read == Step::<AddInvokeTransaction, H256, E>::Done(Err(e)),
        read matches Ok(transaction) ==> after_read matches Step::Pending(adding)
            && adding.transaction == transaction && match added {
            Err(e) => after_added == Step::<SentTransaction, H256, E>::Done(
                Err(EthApiError::RequestError(e)),
            ),
            Ok(transaction_hash) => after_added matches Step::Pending(sent) && {
                &&& sent.wait.transaction_hash == transaction_hash
                &&& sent.wait.interval == 1000
                &&& sent.wait.timeout == 15000
                &&& match waited {
                    Ok(_) => r matches Ok(hash) && be_value(hash.bytes@) == transaction_hash@,
                    Err(e) => r == Err::<H256, EthApiError<E>>(e),
                }
            },
        },
{
}

} // verus!
