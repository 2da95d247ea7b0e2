//! Which transaction is simulated for an estimate of gas, and what the estimate is.
use crate::block::{BlockId, ConvertBlockId, ConvertedBlockId, StarknetBlockId};
use crate::blocks::BlockNumberQuery;
use crate::bytes::be_value;
use crate::client::KakarotClient;
use crate::config::Constants;
use crate::error::{ConversionError, EthApiError, UintOverflow};
use crate::estimate::{
    transaction_for_request, EncodeTransaction, EstimateBlockNumber, EstimateNonce, EstimateSender,
    EstimateSimulation, EstimatedTransaction, RawKakarotCalldata,
};
use crate::felt::Felt;
use crate::gateway::{
    hex_text, json_string_lists, json_strings, url_joined, url_text, url_with_query_pair,
};
use crate::laws::simulations::{
    simulation_posts_the_transaction, simulation_without_a_gateway_is_fixed,
};
use crate::simulation::{FeeUnit, TransactionSimulationInfo};
use crate::step::Step;
use crate::text::decimal_text;
use crate::transaction::{
    numbers, CallRequest, InvokeTransactionView, TransactionKind, TxEip1559,
};
use crate::uint::{two_to_128, U256};
use vstd::arithmetic::div_mod::lemma_mod_multiples_vanish;
use vstd::prelude::*;

verus! {

/// What is left of a number in its lower 64 and 128 bits.
proof fn lemma_lower_bits(n: U256)
    ensures
        n@ <= u64::MAX <==> n.hi == 0 && n.lo <= u64::MAX,
        n@ <= u128::MAX <==> n.hi == 0,
        n.hi == 0 ==> n@ == n.lo,
        n@ % (u64::MAX as nat + 1) == n.lo % 0x1_0000_0000_0000_0000u128,
        n@ % (u128::MAX as nat + 1) == n.lo,
{
    let m: nat = 0x1_0000_0000_0000_0000;
    assert(n@ == m * (n.hi * m) + n.lo);
    lemma_mod_multiples_vanish(n.hi * m, n.lo as int, m as int);
    assert(n@ == two_to_128() * n.hi + n.lo);
    lemma_mod_multiples_vanish(n.hi as int, n.lo as int, two_to_128() as int);
    assert(u128::MAX as nat + 1 == two_to_128());
}

/// The transaction for a request has the request's own numbers, target, data and chain, and where
/// the request gives none, the constant for it, zero, or nothing. It has the nonce that was looked
/// up and no access list. It exists exactly where every number fits its field.
pub proof fn transaction_has_the_requests_fields(
    request: CallRequest,
    constants: &Constants,
    nonce: U256,
    r: Result<TxEip1559, ConversionError>,
)
    requires
        call_ensures(transaction_for_request, (request, constants, nonce), r),
    ensures
        r is Ok <==> {
            &&& nonce.hi == 0 && nonce.lo <= u64::MAX
            &&& request.gas matches Some(n) ==> n.hi == 0 && n.lo <= u64::MAX
            &&& request.max_fee_per_gas matches Some(n) ==> n.hi == 0
            &&& request.max_priority_fee_per_gas matches Some(n) ==> n.hi == 0
            &&& request.value matches Some(n) ==> n.hi == 0
        },
        r matches Ok(transaction) ==> {
            &&& transaction.nonce == nonce.lo
            &&& match request.gas {
                Some(n) => transaction.gas_limit == n.lo,
                None => transaction.gas_limit == 0,
            }
            &&& match request.max_fee_per_gas {
                Some(n) => transaction.max_fee_per_gas == n.lo,
                None => transaction.max_fee_per_gas == constants.base_fee_per_gas,
            }
            &&& match request.max_priority_fee_per_gas {
                Some(n) => transaction.max_priority_fee_per_gas == n.lo,
                None => transaction.max_priority_fee_per_gas == constants.max_priority_fee_per_gas,
            }
            &&& match request.value {
                Some(n) => transaction.value == n.lo,
                None => transaction.value == 0,
            }
            &&& match request.chain_id {
                Some(id) => transaction.chain_id == id,
                None => transaction.chain_id == constants.chain_id,
            }
            &&& match request.to {
                Some(to) => transaction.to == TransactionKind::Call(to),
                None => transaction.to == TransactionKind::Create,
            }
            &&& match request.input.data {
                Some(data) => transaction.input@ == data@,
                None => transaction.input@.len() == 0,
            }
            &&& transaction.access_list@.len() == 0
        },
{
    lemma_lower_bits(nonce);
    if request.gas is Some {
        lemma_lower_bits(request.gas->Some_0);
    }
    if request.max_fee_per_gas is Some {
        lemma_lower_bits(request.max_fee_per_gas->Some_0);
    }
    if request.max_priority_fee_per_gas is Some {
        lemma_lower_bits(request.max_priority_fee_per_gas->Some_0);
    }
    if request.value is Some {
        lemma_lower_bits(request.value->Some_0);
    }
}

/// The first number that does not fit its field is the one that is reported, by what is left of it
/// in the field: the nonce, the limit of gas, the fee, the priority fee, the value, in this order.
pub proof fn first_number_that_does_not_fit_is_reported(
    request: CallRequest,
    constants: &Constants,
    nonce: U256,
    r: Result<TxEip1559, ConversionError>,
)
    requires
        call_ensures(transaction_for_request, (request, constants, nonce), r),
    ensures
        r matches Err(e) ==> e matches ConversionError::UintConversionError(overflow) && overflow
            == (if nonce.hi > 0 || nonce.lo > u64::MAX {
            UintOverflow {
                bits: 256,
                wrapped: nonce.lo % 0x1_0000_0000_0000_0000u128,
                max: u64::MAX as u128,
            }
        } else if request.gas is Some && (request.gas->Some_0.hi > 0 || request.gas->Some_0.lo
            > u64::MAX) {
            UintOverflow {
                bits: 256,
                wrapped: request.gas->Some_0.lo % 0x1_0000_0000_0000_0000u128,
                max: u64::MAX as u128,
            }
        } else if request.max_fee_per_gas is Some && request.max_fee_per_gas->Some_0.hi > 0 {
            UintOverflow {
                bits: 256,
                wrapped: request.max_fee_per_gas->Some_0.lo,
                max: u128::MAX,
            }
        } else if request.max_priority_fee_per_gas is Some
            && request.max_priority_fee_per_gas->Some_0.hi > 0 {
            UintOverflow {
                bits: 256,
                wrapped: request.max_priority_fee_per_gas->Some_0.lo,
                max: u128::MAX,
            }
        } else {
            UintOverflow { bits: 256, wrapped: request.value->Some_0.lo, max: u128::MAX }
        }),
{
    lemma_lower_bits(nonce);
    if request.gas is Some {
        lemma_lower_bits(request.gas->Some_0);
    }
    if request.max_fee_per_gas is Some {
        lemma_lower_bits(request.max_fee_per_gas->Some_0);
    }
    if request.max_priority_fee_per_gas is Some {
        lemma_lower_bits(request.max_priority_fee_per_gas->Some_0);
    }
    if request.value is Some {
        lemma_lower_bits(request.value->Some_0);
    }
}

/// Without a gateway the estimate is fixed, and nothing is asked or looked at. With one, a request
/// needs a sender, and the sender's nonce on the block that was named is looked up first.
pub proof fn estimate_starts_with_the_senders_nonce<P, E>(
    client: &KakarotClient<P>,
    request: CallRequest,
    block_id: BlockId,
    step: Step<EstimateNonce, U256, E>,
)
    requires
        call_ensures(KakarotClient::<P>::estimate_gas::<E>, (client, request, block_id), step),
    ensures
        client.network is Other ==> step == Step::<EstimateNonce, U256, E>::Done(
            Ok(client.constants.estimate_gas),
        ),
        !(client.network is Other) && request.from is None ==> (step matches Step::Done(
            Err(EthApiError::MissingParameterError(e)),
        ) && e@ == "from for estimate_gas"@),
        !(client.network is Other) && request.from is Some ==> (step matches Step::Pending(next) && {
            &&& next.from == request.from->Some_0
            &&& next.nonce.operation.ethereum_address == request.from->Some_0
            &&& next.nonce.block_id == block_id
            &&& next.block_id == block_id
            &&& next.request == request
        }),
{
}

/// The transaction that is encoded for an estimate has the request's own fields and the nonce that
/// was looked up. It is sent by the account that the client's own Kakarot contract gives for all
/// twenty bytes of the sender's address, in the block that was named; it is encoded without a
/// header, under a signature of zeros, and the byte at each place of the encoding stands at the
/// same place of the data for that contract.
pub proof fn estimate_encodes_the_request<P, E>(
    client: &KakarotClient<P>,
    request: CallRequest,
    block_id: BlockId,
    start: EstimateNonce,
    nonce: U256,
    converting: ConvertBlockId<EstimatedTransaction>,
    starknet_block_id: StarknetBlockId,
    numbering: EstimateBlockNumber<E>,
    block_number: u64,
    addressing: EstimateSender,
    sender_address: Felt,
    encoding: EncodeTransaction,
    encoded: Vec<u8>,
    wrapping: RawKakarotCalldata,
)
    requires
        call_ensures(
            KakarotClient::<P>::estimate_gas::<E>,
            (client, request, block_id),
            Step::Pending(start),
        ),
        call_ensures(
            EstimateNonce::resume::<P, E>,
            (start, client, Ok(nonce)),
            Step::Pending(converting),
        ),
        call_ensures(
            ConvertBlockId::<EstimatedTransaction>::resume::<P, E>,
            (converting, client, Ok(starknet_block_id)),
            Step::Pending(numbering),
        ),
        call_ensures(
            EstimateBlockNumber::<E>::resume::<P>,
            (numbering, client, Ok(block_number)),
            Step::Pending(addressing),
        ),
        call_ensures(
            EstimateSender::resume::<E>,
            (addressing, Ok(sender_address)),
            Step::Pending(encoding),
        ),
        call_ensures(EncodeTransaction::resume::<P>, (encoding, client, encoded), wrapping),
    ensures
        converting.block_id == block_id,
        numbering.block_id == starknet_block_id,
        starknet_block_id matches StarknetBlockId::Number(n) ==> numbering.block_number == Step::<
            BlockNumberQuery,
            u64,
            E,
        >::Done(Ok(n)),
        starknet_block_id is Tag ==> numbering.block_number == Step::<
            BlockNumberQuery,
            u64,
            E,
        >::Pending(BlockNumberQuery::Latest),
        starknet_block_id is Hash ==> numbering.block_number == Step::<
            BlockNumberQuery,
            u64,
            E,
        >::Pending(BlockNumberQuery::ByHash(starknet_block_id)),
        request.from matches Some(from) && addressing.query.ethereum_address@ == be_value(
            from.bytes@,
        ),
        addressing.query.kakarot_address == client.kakarot_contract.address,
        addressing.query.block_id == starknet_block_id,
        nonce.hi == 0 && encoding.transaction.nonce == nonce.lo,
        match request.value {
            Some(n) => n.hi == 0 && encoding.transaction.value == n.lo,
            None => encoding.transaction.value == 0,
        },
        match request.gas {
            Some(n) => n.hi == 0 && encoding.transaction.gas_limit == n.lo,
            None => encoding.transaction.gas_limit == 0,
        },
        match request.max_fee_per_gas {
            Some(n) => n.hi == 0 && encoding.transaction.max_fee_per_gas == n.lo,
            None => encoding.transaction.max_fee_per_gas == client.constants.base_fee_per_gas,
        },
        match request.max_priority_fee_per_gas {
            Some(n) => n.hi == 0 && encoding.transaction.max_priority_fee_per_gas == n.lo,
            None => encoding.transaction.max_priority_fee_per_gas
                == client.constants.max_priority_fee_per_gas,
        },
        match request.chain_id {
            Some(id) => encoding.transaction.chain_id == id,
            None => encoding.transaction.chain_id == client.constants.chain_id,
        },
        match request.to {
            Some(to) => encoding.transaction.to == TransactionKind::Call(to),
            None => encoding.transaction.to == TransactionKind::Create,
        },
        match request.input.data {
            Some(data) => encoding.transaction.input@ == data@,
            None => encoding.transaction.input@.len() == 0,
        },
        encoding.transaction.access_list@.len() == 0,
        encoding.signature.r.hi == 0 && encoding.signature.r.lo == 0,
        encoding.signature.s.hi == 0 && encoding.signature.s.lo == 0,
        !encoding.signature.odd_y_parity,
        !encoding.with_header,
        wrapping.kakarot_address == client.kakarot_contract.address,
        wrapping.data@.len() == encoded@.len(),
        forall|i: int| 0 <= i < encoded@.len() ==> (#[trigger] wrapping.data@[i])@ == encoded@[i],
        wrapping.sender_address == sender_address,
        wrapping.nonce == nonce.lo,
        wrapping.block_number == block_number,
{
    lemma_lower_bits(nonce);
    if request.gas is Some {
        lemma_lower_bits(request.gas->Some_0);
    }
    if request.max_fee_per_gas is Some {
        lemma_lower_bits(request.max_fee_per_gas->Some_0);
    }
    if request.max_priority_fee_per_gas is Some {
        lemma_lower_bits(request.max_priority_fee_per_gas->Some_0);
    }
    if request.value is Some {
        lemma_lower_bits(request.value->Some_0);
    }
}

/// What is posted for an estimate carries the calldata as it came, in the sender's name and with its
/// nonce, on the block that was looked up, unsigned, for no fee, for execution and without its
/// validation.
pub proof fn estimate_posts_the_calldata<P, I, E>(
    client: &KakarotClient<P>,
    base: reqwest::Url,
    endpoint: Seq<char>,
    wrapping: RawKakarotCalldata,
    calldata: Vec<Felt>,
    last: EstimateSimulation<I, E>,
)
    requires
        client.constants.gateway_url == Some(base),
        url_joined(url_text(base), "simulate_transaction"@) == Ok::<Seq<char>, Seq<char>>(endpoint),
        call_ensures(RawKakarotCalldata::resume::<P, I, E>, (wrapping, client, calldata), last),
    ensures
        last.simulation matches Step::Pending(post) && {
            &&& url_text(post.url) == url_with_query_pair(
                url_with_query_pair(
                    endpoint,
                    "blockNumber"@,
                    decimal_text(wrapping.block_number as nat),
                ),
                "skipValidate"@,
                "true"@,
            )
            &&& json_strings(post.body)["sender_address"@] == hex_text(wrapping.sender_address@)
            &&& json_strings(post.body)["nonce"@] == hex_text(wrapping.nonce as nat)
            &&& json_strings(post.body)["max_fee"@] == hex_text(0)
            &&& json_strings(post.body)["type"@] == "INVOKE_FUNCTION"@
            &&& json_strings(post.body)["version"@] == hex_text(1)
            &&& json_string_lists(post.body)["signature"@].len() == 0
            &&& json_string_lists(post.body)["calldata"@].len() == calldata@.len()
            &&& forall|i: int|
                0 <= i < calldata@.len() ==> json_string_lists(post.body)["calldata"@][i]
                    == hex_text((#[trigger] calldata@[i])@)
        },
{
    let transaction = InvokeTransactionView {
        sender_address: wrapping.sender_address@,
        calldata: numbers(calldata@),
        max_fee: 0,
        signature: Seq::empty(),
        nonce: wrapping.nonce as nat,
        is_query: false,
    };
    simulation_posts_the_transaction(
        client.constants,
        base,
        transaction,
        wrapping.block_number,
        true,
        last.simulation,
    );
    let body = last.simulation->Pending_0.body;
    assert forall|i: int| 0 <= i < calldata@.len() implies json_string_lists(
        body,
    )["calldata"@][i] == hex_text((#[trigger] calldata@[i])@) by {
        assert(transaction.calldata[i] == calldata@[i]@);
    }
}

/// For an estimate, a gateway whose URL takes no reference, or no gateway at all, is not asked: the
/// simulation has failed, or has the fixed fee.
pub proof fn estimate_asks_only_a_gateway<P, I, E>(
    client: &KakarotClient<P>,
    wrapping: RawKakarotCalldata,
    calldata: Vec<Felt>,
    last: EstimateSimulation<I, E>,
)
    requires
        call_ensures(RawKakarotCalldata::resume::<P, I, E>, (wrapping, client, calldata), last),
    ensures
        client.constants.gateway_url matches Some(base) ==> (url_joined(
            url_text(base),
            "simulate_transaction"@,
        ) matches Err(text) ==> last.simulation matches Step::Done(
            Err(EthApiError::FeederGatewayError(e)),
        ) && e@ == "gateway url parsing error: "@ + text),
        client.constants.gateway_url is None ==> {
            let gas = client.constants.estimate_gas;
            let price = client.constants.max_fee@;
            if gas.hi != 0 || gas.lo > u64::MAX {
                last.simulation matches Step::Done(
                    Err(EthApiError::ConversionError(ConversionError::UintConversionError(o))),
                ) && o.bits == 256 && o.wrapped == gas.lo % 0x1_0000_0000_0000_0000u128 && o.max
                    == u64::MAX
            } else if price > u64::MAX || gas.lo * price > u64::MAX {
                last.simulation matches Step::Done(
                    Err(EthApiError::ConversionError(ConversionError::FeltOutOfRange)),
                )
            } else {
                last.simulation matches Step::Done(Ok(info)) && {
                    &&& info.fee_estimation.gas_usage == gas.lo
                    &&& info.fee_estimation.gas_price == price
                    &&& info.fee_estimation.overall_fee == gas.lo * price
                    &&& info.fee_estimation.unit == FeeUnit::Wei
                }
            }
        },
{
    let transaction = InvokeTransactionView {
        sender_address: wrapping.sender_address@,
        calldata: numbers(calldata@),
        max_fee: 0,
        signature: Seq::empty(),
        nonce: wrapping.nonce as nat,
        is_query: false,
    };
    if client.constants.gateway_url is Some {
        simulation_posts_the_transaction(
            client.constants,
            client.constants.gateway_url->Some_0,
            transaction,
            wrapping.block_number,
            true,
            last.simulation,
        );
    } else {
        simulation_without_a_gateway_is_fixed(
            client.constants,
            transaction,
            wrapping.block_number,
            true,
            last.simulation,
        );
    }
}

/// The estimate is the gas that the simulation used, raised to the least amount. A failure of the
/// simulation is the outcome.
pub proof fn estimate_is_the_used_gas_or_the_least<P, I, E>(
    client: &KakarotClient<P>,
    last: EstimateSimulation<I, E>,
    outcome: Result<TransactionSimulationInfo<I>, EthApiError<E>>,
    r: Result<U256, EthApiError<E>>,
)
    requires
        call_ensures(EstimateSimulation::<I, E>::resume::<P>, (last, client, outcome), r),
    ensures
        outcome matches Ok(info) ==> r matches Ok(gas) && gas.hi == 0 && gas.lo == (
        if info.fee_estimation.gas_usage < client.constants.minimum_gas_fee {
            client.constants.minimum_gas_fee
        } else {
            info.fee_estimation.gas_usage
        }),
        outcome matches Err(e) ==> r == Err::<U256, EthApiError<E>>(e),
{
}

/// A failure on the way to an estimate is the outcome, and without one it goes on, unless a number
/// of the request does not fit.
pub proof fn estimate_fails_with_its_steps<P, E>(
    client: &KakarotClient<P>,
    start: EstimateNonce,
    nonce: Result<U256, EthApiError<E>>,
    made: Result<TxEip1559, ConversionError>,
    after_nonce: Step<ConvertBlockId<EstimatedTransaction>, U256, E>,
    converting: ConvertBlockId<EstimatedTransaction>,
    converted: ConvertedBlockId,
    after_block_id: Step<EstimateBlockNumber<E>, U256, E>,
    numbering: EstimateBlockNumber<E>,
    block_number: Result<u64, EthApiError<E>>,
    after_number: Step<EstimateSender, U256, E>,
    addressing: EstimateSender,
    sender_address: Result<Felt, EthApiError<E>>,
    after_address: Step<EncodeTransaction, U256, E>,
)
    requires
        call_ensures(EstimateNonce::resume::<P, E>, (start, client, nonce), after_nonce),
        nonce matches Ok(n) ==> call_ensures(
            transaction_for_request,
            (start.request, &client.constants, n),
            made,
        ),
        call_ensures(
            ConvertBlockId::<EstimatedTransaction>::resume::<P, E>,
            (converting, client, converted),
            after_block_id,
        ),
        call_ensures(
            EstimateBlockNumber::<E>::resume::<P>,
            (numbering, client, block_number),
            after_number,
        ),
        call_ensures(EstimateSender::resume::<E>, (addressing, sender_address), after_address),
    ensures
        nonce matches Err(e) ==> after_nonce == Step::<
            ConvertBlockId<EstimatedTransaction>,
            U256,
            E,
        >::Done(Err(e)),
        nonce is Ok ==> (made is Ok <==> after_nonce is Pending),
        nonce is Ok ==> (made matches Err(e) ==> after_nonce == Step::<
            ConvertBlockId<EstimatedTransaction>,
            U256,
            E,
        >::Done(Err(EthApiError::ConversionError(e)))),
        converted matches Err(e) ==> after_block_id == Step::<
            EstimateBlockNumber<E>,
            U256,
            E,
        >::Done(Err(EthApiError::ConversionError(e))),
        converted is Ok ==> after_block_id is Pending,
        block_number matches Err(e) ==> after_number == Step::<EstimateSender, U256, E>::Done(
            Err(e),
        ),
        block_number is Ok ==> after_number is Pending,
        sender_address matches Err(e) ==> after_address == Step::<EncodeTransaction, U256, E>::Done(
            Err(e),
        ),
        sender_address is Ok ==> after_address is Pending,
{
}

} // verus!
