//! The estimate of the gas that a call would use.
use crate::account::{asks_starknet_address, ComputeStarknetAddress, Nonce};
use crate::address::Address;
use crate::block::{BlockId, ConvertBlockId, ConvertedBlockId, StarknetBlockId};
use crate::blocks::{block_number_step, BlockNumberQuery};
use crate::client::KakarotClient;
use crate::config::{Constants, Network};
use crate::error::{ConversionError, EthApiError};
use crate::felt::Felt;
use crate::helpers::{bytes_to_felt_vec, felts_of_bytes};
use crate::simulation::{simulates, PostSimulation, TransactionSimulationInfo};
use crate::step::Step;
use crate::transaction::{
    numbers, BroadcastedInvokeTransaction, CallRequest, InvokeTransactionView, Signature,
    TransactionKind, TxEip1559,
};
use crate::uint::{narrowed, U256};
use vstd::prelude::*;

verus! {

/// The lookup of the nonce of `from`, to be run to its outcome.
#[derive(Debug)]
pub struct EstimateNonce {
    pub nonce: ConvertBlockId<Nonce>,
    pub from: Address,
    pub block_id: BlockId,
    pub request: CallRequest,
}

/// An operation that estimates the gas of a transaction.
#[derive(Debug)]
pub struct EstimatedTransaction {
    pub from: Address,
    pub transaction: TxEip1559,
}

/// The lookup of the number of the block `block_id`, to be run to its outcome.
pub struct EstimateBlockNumber<E> {
    pub block_number: Step<BlockNumberQuery, u64, E>,
    pub block_id: StarknetBlockId,
    pub from: Address,
    pub transaction: TxEip1559,
}

/// The request for the Starknet address of the account that sends the transaction.
#[derive(Debug)]
pub struct EstimateSender {
    pub query: ComputeStarknetAddress,
    pub block_number: u64,
    pub transaction: TxEip1559,
}

/// The request to encode `transaction`, signed with `signature`, as bytes.
#[derive(Debug)]
pub struct EncodeTransaction {
    pub transaction: TxEip1559,
    pub signature: Signature,
    pub with_header: bool,
    pub sender_address: Felt,
    pub block_number: u64,
}

/// The request for the calldata with which an account makes the Kakarot contract at
/// `kakarot_address` execute the encoded transaction `data`.
#[derive(Debug)]
pub struct RawKakarotCalldata {
    pub kakarot_address: Felt,
    pub data: Vec<Felt>,
    pub sender_address: Felt,
    pub nonce: u64,
    pub block_number: u64,
}

/// The simulation that gives the estimate, to be run to its outcome.
pub struct EstimateSimulation<I, E> {
    pub simulation: Step<PostSimulation, TransactionSimulationInfo<I>, E>,
}

/// The number that was given, or `default` where none was.
pub open spec fn given_or(given: Option<U256>, default: nat) -> nat {
    match given {
        Some(n) => n@,
        None => default,
    }
}

/// The numbers of the transaction for a request, each fitted to its width: the nonce, the limit of
/// gas, the two fees and the value. The first that does not fit fails.
pub open spec fn transaction_numbers(
    request: CallRequest,
    constants: Constants,
    nonce: nat,
) -> Result<(u128, u128, u128, u128, u128), ConversionError> {
    let gas_limit = given_or(request.gas, 0);
    let fee = given_or(request.max_fee_per_gas, constants.base_fee_per_gas as nat);
    let tip = given_or(
        request.max_priority_fee_per_gas,
        constants.max_priority_fee_per_gas as nat,
    );
    let value = given_or(request.value, 0);
    match (
        narrowed(nonce, u64::MAX as u128),
        narrowed(gas_limit, u64::MAX as u128),
        narrowed(fee, u128::MAX),
        narrowed(tip, u128::MAX),
        narrowed(value, u128::MAX),
    ) {
        (Err(e), _, _, _, _) => Err(e),
        (_, Err(e), _, _, _) => Err(e),
        (_, _, Err(e), _, _) => Err(e),
        (_, _, _, Err(e), _) => Err(e),
        (_, _, _, _, Err(e)) => Err(e),
        (Ok(nonce), Ok(gas_limit), Ok(fee), Ok(tip), Ok(value)) => Ok(
            (nonce, gas_limit, fee, tip, value),
        ),
    }
}

/// Whether `transaction` is the one for a request: it has the request's numbers, target and data,
/// and an empty access list.
pub open spec fn is_transaction_for(
    transaction: TxEip1559,
    request: CallRequest,
    constants: Constants,
    nonce: nat,
) -> bool {
    &&& transaction_numbers(request, constants, nonce) == Ok::<_, ConversionError>(
        (
            transaction.nonce as u128,
            transaction.gas_limit as u128,
            transaction.max_fee_per_gas,
            transaction.max_priority_fee_per_gas,
            transaction.value,
        ),
    )
    &&& transaction.chain_id == (match request.chain_id {
        Some(id) => id,
        None => constants.chain_id,
    })
    &&& transaction.to == (match request.to {
        Some(address) => TransactionKind::Call(address),
        None => TransactionKind::Create,
    })
    &&& transaction.access_list@.len() == 0
    &&& transaction.input@ == (match request.input.data {
        Some(data) => data@,
        None => Seq::empty(),
    })
}

/// Builds the transaction for a request.
pub fn transaction_for_request(request: CallRequest, constants: &Constants, nonce: U256) -> (r:
    Result<TxEip1559, ConversionError>)
    ensures
        match r {
            Ok(transaction) => is_transaction_for(transaction, request, *constants, nonce@),
            Err(e) => transaction_numbers(request, *constants, nonce@) == Err::<
                (u128, u128, u128, u128, u128),
                ConversionError,
            >(e),
        },
{
    let chain_id: u64 = request.chain_id.unwrap_or(constants.chain_id);
    let nonce: u64 = match nonce.try_to_u64() {
        Ok(n) => n,
        Err(e) => {
            return Err(e);
        },
    };
    let gas_limit: u64 = match request.gas.unwrap_or(U256::zero()).try_to_u64() {
        Ok(n) => n,
        Err(e) => {
            return Err(e);
        },
    };
    let max_fee_per_gas: u128 = match request.max_fee_per_gas.unwrap_or(
        U256::from_u128(constants.base_fee_per_gas),
    ).try_to_u128() {
        Ok(n) => n,
        Err(e) => {
            return Err(e);
        },
    };
    let max_priority_fee_per_gas: u128 = match request.max_priority_fee_per_gas.unwrap_or(
        U256::from_u128(constants.max_priority_fee_per_gas),
    ).try_to_u128() {
        Ok(n) => n,
        Err(e) => {
            return Err(e);
        },
    };
    let to = match request.to {
        Some(address) => TransactionKind::Call(address),
        None => TransactionKind::Create,
    };
    let value: u128 = match request.value.unwrap_or(U256::zero()).try_to_u128() {
        Ok(n) => n,
        Err(e) => {
            return Err(e);
        },
    };
    let input = match request.input.data {
        Some(data) => data,
        None => Vec::new(),
    };
    Ok(
        TxEip1559 {
            chain_id,
            nonce,
            gas_limit,
            max_fee_per_gas,
            max_priority_fee_per_gas,
            to,
            value,
            access_list: Vec::new(),
            input,
        },
    )
}

impl<P> KakarotClient<P> {
    /// Returns the gas that a call is estimated to use: that of its simulation where the network
    /// has a gateway, and a fixed amount elsewhere.
    pub fn estimate_gas<E>(&self, request: CallRequest, block_id: BlockId) -> (step: Step<
        EstimateNonce,
        U256,
        E,
    >)
        ensures
            if !self.network.has_gateway() {
                step == Step::<EstimateNonce, U256, E>::Done(Ok(self.constants.estimate_gas))
            } else {
                match request.from {
                    None => step matches Step::Done(Err(EthApiError::MissingParameterError(e)))
                        && e@ == "from for estimate_gas"@,
                    Some(from) => step == Step::<EstimateNonce, U256, E>::Pending(
                        EstimateNonce {
                            nonce: ConvertBlockId {
                                block_id,
                                operation: Nonce { ethereum_address: from },
                            },
                            from,
                            block_id,
                            request,
                        },
                    ),
                }
            },
    {
        match self.network {
            Network::MainnetGateway | Network::Goerli1Gateway | Network::Goerli2Gateway => (),
            Network::Other => {
                return Step::Done(Ok(self.constants.estimate_gas));
            },
        }
        match request.from {
            None => Step::Done(
                Err(EthApiError::MissingParameterError("from for estimate_gas".to_owned())),
            ),
            Some(from) => Step::Pending(
                EstimateNonce { nonce: self.nonce(from, block_id), from, block_id, request },
            ),
        }
    }
}

impl EstimateNonce {
    /// Whether `step` is what follows the outcome of the lookup: the transaction for the request,
    /// for which the block id is converted.
    pub open spec fn leads_to<E>(
        self,
        constants: Constants,
        outcome: Result<U256, EthApiError<E>>,
        step: Step<ConvertBlockId<EstimatedTransaction>, U256, E>,
    ) -> bool {
        match outcome {
            Err(e) => step == Step::<ConvertBlockId<EstimatedTransaction>, U256, E>::Done(Err(e)),
            Ok(nonce) => match transaction_numbers(self.request, constants, nonce@) {
                Err(e) => step == Step::<ConvertBlockId<EstimatedTransaction>, U256, E>::Done(
                    Err(EthApiError::ConversionError(e)),
                ),
                Ok(_) => step matches Step::Pending(next) && {
                    &&& next.block_id == self.block_id
                    &&& next.operation.from == self.from
                    &&& is_transaction_for(
                        next.operation.transaction,
                        self.request,
                        constants,
                        nonce@,
                    )
                },
            },
        }
    }

    /// Builds the transaction, and asks for the conversion of the block id.
    pub fn resume<P, E>(
        self,
        client: &KakarotClient<P>,
        outcome: Result<U256, EthApiError<E>>,
    ) -> (step: Step<ConvertBlockId<EstimatedTransaction>, U256, E>)
        ensures
            self.leads_to(client.constants, outcome, step),
    {
        match outcome {
            Err(e) => Step::Done(Err(e)),
            Ok(nonce) => match transaction_for_request(self.request, &client.constants, nonce) {
                Err(e) => Step::Done(Err(EthApiError::ConversionError(e))),
                Ok(transaction) => Step::Pending(
                    ConvertBlockId {
                        block_id: self.block_id,
                        operation: EstimatedTransaction { from: self.from, transaction },
                    },
                ),
            },
        }
    }
}

impl ConvertBlockId<EstimatedTransaction> {
    /// Whether `step` is what follows the conversion: the lookup of the block's number.
    pub open spec fn leads_to<E>(
        self,
        converted: ConvertedBlockId,
        step: Step<EstimateBlockNumber<E>, U256, E>,
    ) -> bool {
        step == (match converted {
            Err(e) => Step::<EstimateBlockNumber<E>, U256, E>::Done(
                Err(EthApiError::ConversionError(e)),
            ),
            Ok(block_id) => Step::Pending(
                EstimateBlockNumber {
                    block_number: block_number_step(block_id),
                    block_id,
                    from: self.operation.from,
                    transaction: self.operation.transaction,
                },
            ),
        })
    }

    /// Starts the lookup of the block's number.
    pub fn resume<P, E>(self, client: &KakarotClient<P>, converted: ConvertedBlockId) -> (step:
        Step<EstimateBlockNumber<E>, U256, E>)
        ensures
            self.leads_to(converted, step),
    {
        match converted {
            Err(e) => Step::Done(Err(EthApiError::ConversionError(e))),
            Ok(block_id) => Step::Pending(
                EstimateBlockNumber {
                    block_number: client.map_block_id_to_block_number(&block_id),
                    block_id,
                    from: self.operation.from,
                    transaction: self.operation.transaction,
                },
            ),
        }
    }
}

impl<E> EstimateBlockNumber<E> {
    /// Whether `step` is what follows the outcome of the lookup: the Kakarot contract is asked for
    /// the sender's address in the same block.
    pub open spec fn leads_to(
        self,
        kakarot_address: Felt,
        outcome: Result<u64, EthApiError<E>>,
        step: Step<EstimateSender, U256, E>,
    ) -> bool {
        match outcome {
            Err(e) => step == Step::<EstimateSender, U256, E>::Done(Err(e)),
            Ok(block_number) => step matches Step::Pending(next) && {
                &&& asks_starknet_address(next.query, kakarot_address, self.from, self.block_id)
                &&& next.block_number == block_number
                &&& next.transaction == self.transaction
            },
        }
    }

    /// Asks for the sender's address.
    pub fn resume<P>(self, client: &KakarotClient<P>, outcome: Result<u64, EthApiError<E>>) -> (step:
        Step<EstimateSender, U256, E>)
        ensures
            self.leads_to(client.kakarot_contract.address, outcome, step),
    {
        match outcome {
            Err(e) => Step::Done(Err(e)),
            Ok(block_number) => Step::Pending(
                EstimateSender {
                    query: client.compute_starknet_address(&self.from, &self.block_id),
                    block_number,
                    transaction: self.transaction,
                },
            ),
        }
    }
}

impl EstimateSender {
    /// Whether `step` is what follows the reply: the transaction is encoded without a header,
    /// under a signature of zeros.
    pub open spec fn leads_to<E>(
        self,
        reply: Result<Felt, EthApiError<E>>,
        step: Step<EncodeTransaction, U256, E>,
    ) -> bool {
        match reply {
            Err(e) => step == Step::<EncodeTransaction, U256, E>::Done(Err(e)),
            Ok(sender_address) => step matches Step::Pending(next) && {
                &&& next.transaction == self.transaction
                &&& next.signature.r@ == 0
                &&& next.signature.s@ == 0
                &&& !next.signature.odd_y_parity
                &&& !next.with_header
                &&& next.sender_address == sender_address
                &&& next.block_number == self.block_number
            },
        }
    }

    /// Asks for the encoding of the transaction.
    pub fn resume<E>(self, reply: Result<Felt, EthApiError<E>>) -> (step: Step<
        EncodeTransaction,
        U256,
        E,
    >)
        ensures
            self.leads_to(reply, step),
    {
        match reply {
            Err(e) => Step::Done(Err(e)),
            Ok(sender_address) => Step::Pending(
                EncodeTransaction {
                    transaction: self.transaction,
                    signature: Signature { r: U256::zero(), s: U256::zero(), odd_y_parity: false },
                    with_header: false,
                    sender_address,
                    block_number: self.block_number,
                },
            ),
        }
    }
}

impl EncodeTransaction {
    /// Whether `next` is what follows the encoding: each of its bytes is a field element of the
    /// data for the Kakarot contract.
    pub open spec fn leads_to(
        self,
        kakarot_address: Felt,
        encoded: Seq<u8>,
        next: RawKakarotCalldata,
    ) -> bool {
        &&& next.kakarot_address == kakarot_address
        &&& felts_of_bytes(next.data@, encoded)
        &&& next.sender_address == self.sender_address
        &&& next.nonce == self.transaction.nonce
        &&& next.block_number == self.block_number
    }

    /// Asks for the calldata.
    pub fn resume<P>(self, client: &KakarotClient<P>, encoded: Vec<u8>) -> (next:
        RawKakarotCalldata)
        ensures
            self.leads_to(client.kakarot_contract.address, encoded@, next),
    {
        RawKakarotCalldata {
            kakarot_address: client.kakarot_address(),
            data: bytes_to_felt_vec(&encoded),
            sender_address: self.sender_address,
            nonce: self.transaction.nonce,
            block_number: self.block_number,
        }
    }
}

impl RawKakarotCalldata {
    /// Whether `next` is what follows the reply: the simulation, without its validation, of a
    /// transaction with that calldata, unsigned and for no fee.
    pub open spec fn leads_to<I, E>(
        self,
        constants: Constants,
        calldata: Seq<Felt>,
        next: EstimateSimulation<I, E>,
    ) -> bool {
        simulates(
            constants,
            InvokeTransactionView {
                sender_address: self.sender_address@,
                calldata: numbers(calldata),
                max_fee: 0,
                signature: Seq::empty(),
                nonce: self.nonce as nat,
                is_query: false,
            },
            self.block_number,
            true,
            next.simulation,
        )
    }

    /// Starts the simulation.
    pub fn resume<P, I, E>(self, client: &KakarotClient<P>, calldata: Vec<Felt>) -> (next:
        EstimateSimulation<I, E>)
        ensures
            self.leads_to(client.constants, calldata@, next),
    {
        let transaction = BroadcastedInvokeTransaction {
            sender_address: self.sender_address,
            calldata,
            max_fee: Felt::zero(),
            signature: Vec::new(),
            nonce: Felt::from_u64(self.nonce),
            is_query: false,
        };
        assert(transaction@.signature =~= Seq::<nat>::empty());
        EstimateSimulation {
            simulation: client.simulate_transaction(transaction, self.block_number, true),
        }
    }
}

impl<I, E> EstimateSimulation<I, E> {
    /// The estimate, from the outcome of the simulation: the gas that it used, but never less than
    /// the least amount.
    pub fn resume<P>(
        self,
        client: &KakarotClient<P>,
        outcome: Result<TransactionSimulationInfo<I>, EthApiError<E>>,
    ) -> (r: Result<U256, EthApiError<E>>)
        ensures
            match outcome {
                Err(e) => r == Err::<U256, EthApiError<E>>(e),
                Ok(info) => r matches Ok(gas) && {
                    &&& gas@ == info.fee_estimation.gas_usage || gas@
                        == client.constants.minimum_gas_fee
                    &&& gas@ >= info.fee_estimation.gas_usage
                    &&& gas@ >= client.constants.minimum_gas_fee
                },
            },
    {
        match outcome {
            Err(e) => Err(e),
            Ok(info) => if info.fee_estimation.gas_usage < client.constants.minimum_gas_fee {
                Ok(U256::from_u64(client.constants.minimum_gas_fee))
            } else {
                Ok(U256::from_u64(info.fee_estimation.gas_usage))
            },
        }
    }
}

/// What is simulated for an estimate is the request itself: the transaction for it, with the
/// nonce of its sender, is encoded and handed to the Kakarot contract by the sender's account, on
/// the block that was asked for.
pub proof fn estimate_gas_simulates_the_request<P, I, E>(
    client: KakarotClient<P>,
    start: EstimateNonce,
    nonce: U256,
    converting: ConvertBlockId<EstimatedTransaction>,
    block_id: StarknetBlockId,
    numbering: EstimateBlockNumber<E>,
    block_number: u64,
    addressing: EstimateSender,
    sender_address: Felt,
    encoding: EncodeTransaction,
    encoded: Seq<u8>,
    wrapping: RawKakarotCalldata,
    calldata: Seq<Felt>,
    last: EstimateSimulation<I, E>,
)
    requires
        start.leads_to(
            client.constants,
            Ok::<U256, EthApiError<E>>(nonce),
            Step::Pending(converting),
        ),
        converting.leads_to(Ok(block_id), Step::<_, U256, E>::Pending(numbering)),
        numbering.leads_to(
            client.kakarot_contract.address,
            Ok(block_number),
            Step::Pending(addressing),
        ),
        addressing.leads_to(Ok::<Felt, EthApiError<E>>(sender_address), Step::Pending(encoding)),
        encoding.leads_to(client.kakarot_contract.address, encoded, wrapping),
        wrapping.leads_to(client.constants, calldata, last),
    ensures
        converting.block_id == start.block_id,
        numbering.block_number == block_number_step::<E>(block_id),
        asks_starknet_address(
            addressing.query,
            client.kakarot_contract.address,
            start.from,
            block_id,
        ),
        is_transaction_for(encoding.transaction, start.request, client.constants, nonce@),
        wrapping.kakarot_address == client.kakarot_contract.address,
        felts_of_bytes(wrapping.data@, encoded),
        nonce@ <= u64::MAX,
        simulates(
            client.constants,
            (InvokeTransactionView {
                sender_address: sender_address@,
                calldata: numbers(calldata),
                max_fee: 0,
                signature: Seq::empty(),
                nonce: nonce@,
                is_query: false,
            }),
            block_number,
            true,
            last.simulation,
        ),
{
}

} // verus!
