//! The history of fees, and the gas price.
use crate::block::{BlockNumberOrTag, BlockTag, StarknetBlockId};
use crate::client::KakarotClient;
use crate::config::{Constants, Network};
use crate::error::{ConversionError, EthApiError, ProviderError};
use crate::felt::Felt;
use crate::helpers::copy_felts;
use crate::simulation::{simulates, PostSimulation, TransactionSimulationInfo};
use crate::step::Step;
use crate::transaction::{numbers, BroadcastedInvokeTransaction, InvokeTransactionView};
use crate::uint::{uint_is_its_number, usize_overflow_prefix, usize_overflow_text, U256};
use vstd::prelude::*;

verus! {

/// The number of the earliest block that the history of fees knows.
pub const EARLIEST_BLOCK: u64 = 1;

/// The share of a block's gas that the history of fees reports as used, in percent.
pub const GAS_USED_PERCENT: u8 = 90;

/// The history of fees over a number of blocks.
#[derive(Debug)]
pub struct FeeHistory {
    /// The base fee of each block, and that of the block after them.
    pub base_fee_per_gas: Vec<U256>,
    /// The share of its gas that each block used, in percent.
    pub gas_used_percent: Vec<u8>,
    pub oldest_block: U256,
    pub reward: Option<Vec<Vec<U256>>>,
}

/// The request for the number of the latest block, where the history of fees ends.
#[derive(Clone, Copy, Debug)]
pub struct FeeHistoryBlock {
    pub block_count: usize,
}

/// Whether a history of `block_count` blocks can be allocated: the base fees, of 32 bytes each,
/// take no more than the largest allocation.
pub open spec fn can_be_allocated(block_count: nat) -> bool {
    (block_count + 1) * 32 <= isize::MAX
}

/// Whether `history` is that of `block_count` blocks, going back from `newest_block`, under a fixed
/// base fee. The rewards hold one empty list.
pub open spec fn is_fee_history(
    history: FeeHistory,
    base_fee: nat,
    block_count: nat,
    newest_block: nat,
) -> bool {
    &&& history.base_fee_per_gas@.len() == block_count + 1
    &&& forall|i: int|
        0 <= i < history.base_fee_per_gas@.len() ==> (#[trigger] history.base_fee_per_gas@[i])@
            == base_fee
    &&& history.gas_used_percent@.len() == block_count
    &&& forall|i: int|
        0 <= i < history.gas_used_percent@.len() ==> #[trigger] history.gas_used_percent@[i]
            == GAS_USED_PERCENT
    &&& history.oldest_block@ == (if newest_block >= block_count {
        newest_block - block_count
    } else {
        0
    })
    &&& history.reward matches Some(rewards) && rewards@.len() == 1 && rewards@[0]@.len() == 0
}

/// The history of fees never starts after the newest block, and it spans the blocks that were
/// asked for unless the chain has fewer; then it starts with block zero.
pub proof fn fee_history_spans_the_blocks(
    history: FeeHistory,
    base_fee: nat,
    block_count: nat,
    newest_block: nat,
)
    requires
        is_fee_history(history, base_fee, block_count, newest_block),
    ensures
        history.oldest_block@ <= newest_block,
        history.base_fee_per_gas@.len() == history.gas_used_percent@.len() + 1,
        block_count <= newest_block ==> history.oldest_block@ + history.gas_used_percent@.len()
            == newest_block,
        block_count > newest_block ==> history.oldest_block@ == 0,
{
}

/// Writes the history of `block_count` blocks, going back from `newest_block`.
fn write_fee_history(
    base_fee: U256,
    block_count: usize,
    newest_block: u64,
) -> (history: FeeHistory)
    requires
        can_be_allocated(block_count as nat),
    ensures
        is_fee_history(history, base_fee@, block_count as nat, newest_block as nat),
{
    let base_fee_per_gas: Vec<U256> = vec![base_fee; block_count + 1];
    let gas_used_percent: Vec<u8> = vec![GAS_USED_PERCENT; block_count];
    let oldest_block = U256::from_u64(newest_block).saturating_sub(
        U256::from_u64(block_count as u64),
    );
    let mut rewards: Vec<Vec<U256>> = Vec::new();
    rewards.push(Vec::new());
    FeeHistory { base_fee_per_gas, gas_used_percent, oldest_block, reward: Some(rewards) }
}

/// Whether `step` is how the history of `block_count` blocks, going back from `newest_block`, is
/// looked up under a fixed base fee. A tag at the end of the chain needs the latest block's number.
pub open spec fn starts_fee_history<E>(
    base_fee: nat,
    block_count: nat,
    newest_block: BlockNumberOrTag,
    step: Step<FeeHistoryBlock, FeeHistory, E>,
) -> bool {
    if block_count > usize::MAX {
        step matches Step::Done(
            Err(EthApiError::ConversionError(ConversionError::ValueOutOfRange(text))),
        ) && text@ == usize_overflow_text(block_count) && usize_overflow_prefix().is_prefix_of(
            text@,
        )
    } else {
        match newest_block {
            BlockNumberOrTag::Number(n) => step matches Step::Done(Ok(history)) && is_fee_history(
                history,
                base_fee,
                block_count,
                n as nat,
            ),
            BlockNumberOrTag::Earliest => step matches Step::Done(Ok(history)) && is_fee_history(
                history,
                base_fee,
                block_count,
                EARLIEST_BLOCK as nat,
            ),
            _ => step matches Step::Pending(request) && request.block_count == block_count,
        }
    }
}

impl<P> KakarotClient<P> {
    /// Returns the history of fees that ends at the newest block and goes back `block_count`
    /// blocks. The percentiles of rewards, of any type `R`, are not looked at.
    pub fn fee_history<E, R>(
        &self,
        block_count: U256,
        newest_block: BlockNumberOrTag,
        _reward_percentiles: Option<Vec<R>>,
    ) -> (step: Step<FeeHistoryBlock, FeeHistory, E>)
        requires
            block_count@ <= usize::MAX ==> can_be_allocated(block_count@),
        ensures
            starts_fee_history(
                self.constants.base_fee_per_gas as nat,
                block_count@,
                newest_block,
                step,
            ),
    {
        match block_count.try_to_usize() {
            Err(text) => Step::Done(
                Err(EthApiError::ConversionError(ConversionError::ValueOutOfRange(text))),
            ),
            Ok(block_count) => {
                let base_fee = self.base_fee_per_gas();
                match newest_block {
                    BlockNumberOrTag::Number(n) => Step::Done(
                        Ok(write_fee_history(base_fee, block_count, n)),
                    ),
                    BlockNumberOrTag::Earliest => Step::Done(
                        Ok(
                            write_fee_history(base_fee, block_count, EARLIEST_BLOCK),
                        ),
                    ),
                    _ => Step::Pending(FeeHistoryBlock { block_count }),
                }
            },
        }
    }
}

impl FeeHistoryBlock {
    /// Whether `r` is what the reply comes to: the history that ends at the block in it.
    pub open spec fn comes_to<E>(
        self,
        base_fee: nat,
        reply: Result<u64, ProviderError<E>>,
        r: Result<FeeHistory, EthApiError<E>>,
    ) -> bool {
        match reply {
            Ok(newest_block) => r matches Ok(history) && is_fee_history(
                history,
                base_fee,
                self.block_count as nat,
                newest_block as nat,
            ),
            Err(e) => r == Err::<FeeHistory, EthApiError<E>>(EthApiError::RequestError(e)),
        }
    }

    /// The history of fees that ends at the block in the reply.
    pub fn resume<P, E>(
        self,
        client: &KakarotClient<P>,
        reply: Result<u64, ProviderError<E>>,
    ) -> (r: Result<FeeHistory, EthApiError<E>>)
        requires
            can_be_allocated(self.block_count as nat),
        ensures
            self.comes_to(client.constants.base_fee_per_gas as nat, reply, r),
    {
        match reply {
            Ok(newest_block) => Ok(
                write_fee_history(client.base_fee_per_gas(), self.block_count, newest_block),
            ),
            Err(e) => Err(EthApiError::RequestError(e)),
        }
    }
}

/// Whether two histories say the same.
pub open spec fn same_history(a: FeeHistory, b: FeeHistory) -> bool {
    &&& a.base_fee_per_gas@ == b.base_fee_per_gas@
    &&& a.gas_used_percent@ == b.gas_used_percent@
    &&& a.oldest_block == b.oldest_block
    &&& match (a.reward, b.reward) {
        (Some(x), Some(y)) => {
            &&& x@.len() == y@.len()
            &&& forall|i: int| 0 <= i < x@.len() ==> (#[trigger] x@[i])@ == y@[i]@
        },
        (None, None) => true,
        _ => false,
    }
}

/// Whether two lookups of a history came to the same: histories that say the same, or the same
/// failure.
pub open spec fn same_outcome<E>(
    a: Result<FeeHistory, EthApiError<E>>,
    b: Result<FeeHistory, EthApiError<E>>,
) -> bool {
    match (a, b) {
        (Ok(x), Ok(y)) => same_history(x, y),
        (
            Err(EthApiError::ConversionError(ConversionError::ValueOutOfRange(x))),
            Err(EthApiError::ConversionError(ConversionError::ValueOutOfRange(y))),
        ) => x@ == y@,
        (Err(x), Err(y)) => x == y,
        _ => false,
    }
}

/// Whether a lookup that started with `step` comes to `r`, where `reply` is what the node answers
/// when it is asked for the latest block's number.
pub open spec fn fee_history_comes_to<E>(
    base_fee: nat,
    step: Step<FeeHistoryBlock, FeeHistory, E>,
    reply: Result<u64, ProviderError<E>>,
    r: Result<FeeHistory, EthApiError<E>>,
) -> bool {
    match step {
        Step::Done(outcome) => r == outcome,
        Step::Pending(request) => request.comes_to(base_fee, reply, r),
    }
}

/// The histories that are those of the same blocks under the same fee say the same.
proof fn lemma_fee_history_is_unique(
    a: FeeHistory,
    b: FeeHistory,
    base_fee: nat,
    block_count: nat,
    newest_block: nat,
)
    requires
        is_fee_history(a, base_fee, block_count, newest_block),
        is_fee_history(b, base_fee, block_count, newest_block),
    ensures
        same_history(a, b),
{
    assert forall|i: int| 0 <= i < a.base_fee_per_gas@.len() implies #[trigger] a.base_fee_per_gas@[i]
        == b.base_fee_per_gas@[i] by {
        uint_is_its_number(a.base_fee_per_gas@[i], b.base_fee_per_gas@[i]);
    }
    assert(a.base_fee_per_gas@ =~= b.base_fee_per_gas@);
    assert(a.gas_used_percent@ =~= b.gas_used_percent@);
    uint_is_its_number(a.oldest_block, b.oldest_block);
    assert(a.reward->Some_0@[0]@ =~= b.reward->Some_0@[0]@);
}

/// The percentiles of rewards never matter: two lookups of the same blocks come to the same,
/// whatever the percentiles, where the node answers both alike.
pub proof fn reward_percentiles_never_matter<P, E, R>(
    client: &KakarotClient<P>,
    block_count: U256,
    newest_block: BlockNumberOrTag,
    percentiles: Option<Vec<R>>,
    other_percentiles: Option<Vec<R>>,
    step: Step<FeeHistoryBlock, FeeHistory, E>,
    other_step: Step<FeeHistoryBlock, FeeHistory, E>,
    reply: Result<u64, ProviderError<E>>,
    r: Result<FeeHistory, EthApiError<E>>,
    other_r: Result<FeeHistory, EthApiError<E>>,
)
    requires
        call_ensures(
            KakarotClient::<P>::fee_history::<E, R>,
            (client, block_count, newest_block, percentiles),
            step,
        ),
        call_ensures(
            KakarotClient::<P>::fee_history::<E, R>,
            (client, block_count, newest_block, other_percentiles),
            other_step,
        ),
        fee_history_comes_to(client.constants.base_fee_per_gas as nat, step, reply, r),
        fee_history_comes_to(client.constants.base_fee_per_gas as nat, other_step, reply, other_r),
    ensures
        step is Done <==> other_step is Done,
        same_outcome(r, other_r),
{
    let base_fee = client.constants.base_fee_per_gas as nat;
    if block_count@ <= usize::MAX && r is Ok {
        let newest = match newest_block {
            BlockNumberOrTag::Number(n) => n as nat,
            BlockNumberOrTag::Earliest => EARLIEST_BLOCK as nat,
            _ => reply->Ok_0 as nat,
        };
        lemma_fee_history_is_unique(r->Ok_0, other_r->Ok_0, base_fee, block_count@, newest);
    }
}

/// The request for the nonce of the account at `sender_address`, in whose name the gas price is
/// looked up. `calldata` is the call that will be simulated.
#[derive(Debug)]
pub struct GasPriceNonce {
    pub block_id: StarknetBlockId,
    pub sender_address: Felt,
    pub calldata: Vec<Felt>,
}

/// The request for the number of the latest block, on whose state `transaction` is simulated.
#[derive(Debug)]
pub struct GasPriceBlock {
    pub transaction: BroadcastedInvokeTransaction,
}

/// The simulation that gives the gas price, to be run to its outcome.
pub struct GasPriceSimulation<I, E> {
    pub simulation: Step<PostSimulation, TransactionSimulationInfo<I>, E>,
}

/// The call whose simulation gives the gas price on a network with a gateway.
pub open spec fn counter_call(constants: Constants, network: Network) -> Seq<Felt> {
    match network {
        Network::MainnetGateway => constants.counter_call_mainnet@,
        Network::Goerli1Gateway => constants.counter_call_testnet1@,
        _ => constants.counter_call_testnet2@,
    }
}

impl<P> KakarotClient<P> {
    /// Returns the gas price of the network: that of a simulated call where the network has a
    /// gateway, and the base fee elsewhere.
    pub fn gas_price<E>(&self) -> (step: Step<GasPriceNonce, U256, E>)
        ensures
            if self.network.has_gateway() {
                step matches Step::Pending(request) && {
                    &&& request.block_id == StarknetBlockId::Tag(BlockTag::Latest)
                    &&& request.sender_address == self.constants.gas_price_account
                    &&& request.calldata@ == counter_call(self.constants, self.network)
                }
            } else {
                step matches Step::Done(Ok(price)) && price@ == self.constants.base_fee_per_gas
            },
    {
        let calldata = match self.network {
            Network::MainnetGateway => copy_felts(&self.constants.counter_call_mainnet),
            Network::Goerli1Gateway => copy_felts(&self.constants.counter_call_testnet1),
            Network::Goerli2Gateway => copy_felts(&self.constants.counter_call_testnet2),
            Network::Other => {
                return Step::Done(Ok(self.base_fee_per_gas()));
            },
        };
        Step::Pending(
            GasPriceNonce {
                block_id: StarknetBlockId::Tag(BlockTag::Latest),
                sender_address: self.constants.gas_price_account,
                calldata,
            },
        )
    }
}

impl GasPriceNonce {
    /// Whether `step` is what follows the reply: a transaction that makes the call, unsigned, for
    /// no fee and for a query only, to be simulated on the latest block.
    pub open spec fn leads_to<E>(
        self,
        reply: Result<Felt, ProviderError<E>>,
        step: Step<GasPriceBlock, U256, E>,
    ) -> bool {
        match reply {
            Err(e) => step == Step::<GasPriceBlock, U256, E>::Done(
                Err(EthApiError::RequestError(e)),
            ),
            Ok(nonce) => step matches Step::Pending(request) && request.transaction@ == (
            InvokeTransactionView {
                sender_address: self.sender_address@,
                calldata: numbers(self.calldata@),
                max_fee: 0,
                signature: Seq::empty(),
                nonce: nonce@,
                is_query: true,
            }),
        }
    }

    /// Asks for the latest block.
    pub fn resume<E>(self, reply: Result<Felt, ProviderError<E>>) -> (step: Step<
        GasPriceBlock,
        U256,
        E,
    >)
        ensures
            self.leads_to(reply, step),
    {
        match reply {
            Err(e) => Step::Done(Err(EthApiError::RequestError(e))),
            Ok(nonce) => {
                let transaction = BroadcastedInvokeTransaction {
                    sender_address: self.sender_address,
                    calldata: self.calldata,
                    max_fee: Felt::zero(),
                    signature: Vec::new(),
                    nonce,
                    is_query: true,
                };
                assert(transaction@.signature =~= Seq::<nat>::empty());
                Step::Pending(GasPriceBlock { transaction })
            },
        }
    }
}

impl GasPriceBlock {
    /// Whether `step` is what follows the reply: the simulation of the transaction on the block in
    /// the reply, without its validation.
    pub open spec fn leads_to<I, E>(
        self,
        constants: Constants,
        reply: Result<u64, ProviderError<E>>,
        step: Step<GasPriceSimulation<I, E>, U256, E>,
    ) -> bool {
        match reply {
            Err(e) => step == Step::<GasPriceSimulation<I, E>, U256, E>::Done(
                Err(EthApiError::RequestError(e)),
            ),
            Ok(block_number) => step matches Step::Pending(next) && simulates(
                constants,
                self.transaction@,
                block_number,
                true,
                next.simulation,
            ),
        }
    }

    /// Starts the simulation.
    pub fn resume<P, I, E>(
        self,
        client: &KakarotClient<P>,
        reply: Result<u64, ProviderError<E>>,
    ) -> (step: Step<GasPriceSimulation<I, E>, U256, E>)
        ensures
            self.leads_to(client.constants, reply, step),
    {
        match reply {
            Err(e) => Step::Done(Err(EthApiError::RequestError(e))),
            Ok(block_number) => {
                let simulation = client.simulate_transaction(self.transaction, block_number, true);
                Step::Pending(GasPriceSimulation { simulation })
            },
        }
    }
}

impl<I, E> GasPriceSimulation<I, E> {
    /// The gas price, from the outcome of the simulation.
    pub fn resume(self, outcome: Result<TransactionSimulationInfo<I>, EthApiError<E>>) -> (r:
        Result<U256, EthApiError<E>>)
        ensures
            match outcome {
                Ok(info) => r matches Ok(price) && price@ == info.fee_estimation.gas_price,
                Err(e) => r == Err::<U256, EthApiError<E>>(e),
            },
    {
        match outcome {
            Ok(info) => Ok(U256::from_u64(info.fee_estimation.gas_price)),
            Err(e) => Err(e),
        }
    }
}

/// What is simulated for the gas price is the network's own call, unsigned and free, in the name
/// of the account for it, with the nonce that the node gave, on the block that it gave.
pub proof fn gas_price_simulates_the_counter_call<P, I, E>(
    client: KakarotClient<P>,
    request: GasPriceNonce,
    nonce: Felt,
    block: GasPriceBlock,
    block_number: u64,
    last: GasPriceSimulation<I, E>,
)
    requires
        request.sender_address == client.constants.gas_price_account,
        request.calldata@ == counter_call(client.constants, client.network),
        request.leads_to(Ok::<Felt, ProviderError<E>>(nonce), Step::Pending(block)),
        block.leads_to(
            client.constants,
            Ok::<u64, ProviderError<E>>(block_number),
            Step::Pending(last),
        ),
    ensures
        simulates(
            client.constants,
            (InvokeTransactionView {
                sender_address: client.constants.gas_price_account@,
                calldata: numbers(counter_call(client.constants, client.network)),
                max_fee: 0,
                signature: Seq::empty(),
                nonce: nonce@,
                is_query: true,
            }),
            block_number,
            true,
            last.simulation,
        ),
{
}

} // verus!
