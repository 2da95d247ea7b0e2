//! What is simulated, and what the simulation comes to.
use crate::client::KakarotClient;
use crate::config::Constants;
use crate::error::{ConversionError, EthApiError};
use crate::felt::{modulus, Felt};
use crate::gateway::{
    hex_text, json_keys, json_string_lists, json_strings, url_joined, url_text, url_with_query_pair,
};
use crate::simulation::{
    fixed_fee_estimate, simulates, FeeEstimate, FeeUnit, GatewayReply, PostSimulation,
    TransactionSimulationInfo,
};
use crate::step::Step;
use crate::text::decimal_text;
use crate::transaction::{BroadcastedInvokeTransaction, InvokeTransactionView};
use crate::uint::{two_to_128, U256};
use vstd::arithmetic::div_mod::{lemma_mod_multiples_vanish, lemma_small_mod};
use vstd::arithmetic::power2::pow2;
use vstd::prelude::*;

verus! {

/// A fixed fee is the plain product of an amount of gas and a price. It fails where the gas, the
/// price or the product takes more than 64 bits, and the gas is looked at first.
pub proof fn fixed_fee_is_gas_times_price(
    gas: U256,
    price: Felt,
    r: Result<FeeEstimate, ConversionError>,
)
    requires
        call_ensures(fixed_fee_estimate, (gas, price), r),
    ensures
        r is Ok <==> gas.hi == 0 && gas.lo <= u64::MAX && price@ <= u64::MAX && gas.lo * price@
            <= u64::MAX,
        r matches Ok(fee) ==> {
            &&& fee.gas_usage == gas.lo
            &&& fee.gas_price == price@
            &&& fee.overall_fee == gas.lo * price@
            &&& fee.unit == FeeUnit::Wei
        },
        r matches Err(e) ==> if gas.hi == 0 && gas.lo <= u64::MAX {
            e is FeltOutOfRange
        } else {
            e matches ConversionError::UintConversionError(o) && o.bits == 256 && o.wrapped == gas.lo
                % 0x1_0000_0000_0000_0000u128 && o.max == u64::MAX
        },
{
    let g = gas@;
    let p = price@;
    assert(g <= u64::MAX <==> gas.hi == 0 && gas.lo <= u64::MAX);
    if g <= u64::MAX {
        assert(g == gas.lo);
        if p <= u64::MAX {
            assert(g * p <= u64::MAX * u64::MAX) by (nonlinear_arith)
                requires
                    g <= u64::MAX,
                    p <= u64::MAX,
            ;
            lemma_small_mod(g * p, modulus());
        }
    } else {
        let m: nat = 0x1_0000_0000_0000_0000;
        assert(gas@ == m * (gas.hi * m) + gas.lo);
        lemma_mod_multiples_vanish(gas.hi * m, gas.lo as int, m as int);
    }
}

/// The members of the JSON form of a transaction have distinct names.
proof fn lemma_names_are_distinct()
    ensures
        "sender_address"@.len() == 14,
        "max_fee"@.len() == 7 && "max_fee"@[0] == 'm',
        "version"@.len() == 7 && "version"@[0] == 'v',
        "nonce"@.len() == 5,
        "type"@.len() == 4,
        "calldata"@.len() == 8,
        "signature"@.len() == 9,
{
    reveal_strlit("sender_address");
    reveal_strlit("max_fee");
    reveal_strlit("version");
    reveal_strlit("nonce");
    reveal_strlit("type");
    reveal_strlit("calldata");
    reveal_strlit("signature");
}

/// With a gateway, a simulation posts the transaction itself to the gateway's endpoint. The query
/// names the block in decimal and then whether validation is skipped. Every field of the
/// transaction is a member of the body, in hexadecimal; beside them stand the type and the version,
/// to which 2^128 is added for a query, and nothing else.
pub proof fn simulation_posts_the_transaction<I, E>(
    constants: Constants,
    base: reqwest::Url,
    transaction: InvokeTransactionView,
    block_number: u64,
    skip_validate: bool,
    step: Step<PostSimulation, TransactionSimulationInfo<I>, E>,
)
    requires
        constants.gateway_url == Some(base),
        simulates(constants, transaction, block_number, skip_validate, step),
    ensures
        url_joined(url_text(base), "simulate_transaction"@) matches Err(text)
            ==> step matches Step::Done(Err(EthApiError::FeederGatewayError(e))) && e@
            == "gateway url parsing error: "@ + text,
        url_joined(url_text(base), "simulate_transaction"@) matches Ok(endpoint)
            ==> step matches Step::Pending(post) && {
            &&& url_text(post.url) == url_with_query_pair(
                url_with_query_pair(endpoint, "blockNumber"@, decimal_text(block_number as nat)),
                "skipValidate"@,
                if skip_validate {
                    "true"@
                } else {
                    "false"@
                },
            )
            &&& json_keys(post.body) == set![
                "sender_address"@,
                "calldata"@,
                "max_fee"@,
                "signature"@,
                "nonce"@,
                "version"@,
                "type"@,
            ]
            &&& json_strings(post.body).dom() == set![
                "sender_address"@,
                "max_fee"@,
                "nonce"@,
                "version"@,
                "type"@,
            ]
            &&& json_strings(post.body)["sender_address"@] == hex_text(transaction.sender_address)
            &&& json_strings(post.body)["max_fee"@] == hex_text(transaction.max_fee)
            &&& json_strings(post.body)["nonce"@] == hex_text(transaction.nonce)
            &&& json_strings(post.body)["type"@] == "INVOKE_FUNCTION"@
            &&& transaction.is_query ==> json_strings(post.body)["version"@] == hex_text(
                (pow2(128) + 1) as nat,
            )
            &&& !transaction.is_query ==> json_strings(post.body)["version"@] == hex_text(1)
            &&& json_string_lists(post.body).dom() == set!["calldata"@, "signature"@]
            &&& json_string_lists(post.body)["calldata"@].len() == transaction.calldata.len()
            &&& forall|i: int|
                0 <= i < transaction.calldata.len() ==> json_string_lists(
                    post.body,
                )["calldata"@][i] == hex_text(#[trigger] transaction.calldata[i])
            &&& json_string_lists(post.body)["signature"@].len() == transaction.signature.len()
            &&& forall|i: int|
                0 <= i < transaction.signature.len() ==> json_string_lists(
                    post.body,
                )["signature"@][i] == hex_text(#[trigger] transaction.signature[i])
        },
{
    lemma_names_are_distinct();
    crate::laws::numbers::halves_make_the_number(U256 { hi: 0, lo: 0 });
    assert(two_to_128() == pow2(128));
    if url_joined(url_text(base), "simulate_transaction"@) is Ok {
        let body = step->Pending_0.body;
        assert(json_keys(body) =~= set![
            "sender_address"@,
            "calldata"@,
            "max_fee"@,
            "signature"@,
            "nonce"@,
            "version"@,
            "type"@,
        ]);
        assert(json_strings(body).dom() =~= set![
            "sender_address"@,
            "max_fee"@,
            "nonce"@,
            "version"@,
            "type"@,
        ]);
        assert(json_string_lists(body).dom() =~= set!["calldata"@, "signature"@]);
    }
}

/// Without a gateway nothing is asked: the trace is empty, and the fee is that of the fixed amount
/// of gas at the fixed price.
pub proof fn simulation_without_a_gateway_is_fixed<I, E>(
    constants: Constants,
    transaction: InvokeTransactionView,
    block_number: u64,
    skip_validate: bool,
    step: Step<PostSimulation, TransactionSimulationInfo<I>, E>,
)
    requires
        constants.gateway_url is None,
        simulates(constants, transaction, block_number, skip_validate, step),
    ensures
        ({
            let gas = constants.estimate_gas;
            let price = constants.max_fee@;
            if gas.hi != 0 || gas.lo > u64::MAX {
                step matches Step::Done(
                    Err(EthApiError::ConversionError(ConversionError::UintConversionError(o))),
                ) && o.bits == 256 && o.wrapped == gas.lo % 0x1_0000_0000_0000_0000u128 && o.max
                    == u64::MAX
            } else if price > u64::MAX || gas.lo * price > u64::MAX {
                step matches Step::Done(
                    Err(EthApiError::ConversionError(ConversionError::FeltOutOfRange)),
                )
            } else {
                step matches Step::Done(Ok(info)) && {
                    &&& info.trace.function_invocation is None
                    &&& info.trace.fee_transfer_invocation is None
                    &&& info.trace.validate_invocation is None
                    &&& info.trace.signature@.len() == 0
                    &&& info.fee_estimation.gas_usage == gas.lo
                    &&& info.fee_estimation.gas_price == price
                    &&& info.fee_estimation.overall_fee == gas.lo * price
                    &&& info.fee_estimation.unit == FeeUnit::Wei
                }
            }
        }),
{
    let gas = constants.estimate_gas;
    let g = gas@;
    let p = constants.max_fee@;
    assert(g <= u64::MAX <==> gas.hi == 0 && gas.lo <= u64::MAX);
    if g <= u64::MAX {
        assert(g == gas.lo);
        if p <= u64::MAX {
            assert(g * p <= u64::MAX * u64::MAX) by (nonlinear_arith)
                requires
                    g <= u64::MAX,
                    p <= u64::MAX,
            ;
            lemma_small_mod(g * p, modulus());
        }
    } else {
        let m: nat = 0x1_0000_0000_0000_0000;
        assert(gas@ == m * (gas.hi * m) + gas.lo);
        lemma_mod_multiples_vanish(gas.hi * m, gas.lo as int, m as int);
    }
}

/// The client simulates the transaction that it is given, on the block that it is given: the
/// members of the body are its fields, each felt by its number, one text for one felt.
pub proof fn client_posts_the_transaction_given<P, I, E>(
    client: &KakarotClient<P>,
    base: reqwest::Url,
    request: BroadcastedInvokeTransaction,
    block_number: u64,
    skip_validate: bool,
    endpoint: Seq<char>,
    step: Step<PostSimulation, TransactionSimulationInfo<I>, E>,
)
    requires
        client.constants.gateway_url == Some(base),
        url_joined(url_text(base), "simulate_transaction"@) == Ok::<Seq<char>, Seq<char>>(endpoint),
        call_ensures(
            KakarotClient::<P>::simulate_transaction::<I, E>,
            (client, request, block_number, skip_validate),
            step,
        ),
    ensures
        step matches Step::Pending(post) && {
            &&& url_text(post.url) == url_with_query_pair(
                url_with_query_pair(endpoint, "blockNumber"@, decimal_text(block_number as nat)),
                "skipValidate"@,
                if skip_validate {
                    "true"@
                } else {
                    "false"@
                },
            )
            &&& json_strings(post.body)["sender_address"@] == hex_text(request.sender_address@)
            &&& json_strings(post.body)["max_fee"@] == hex_text(request.max_fee@)
            &&& json_strings(post.body)["nonce"@] == hex_text(request.nonce@)
            &&& json_strings(post.body)["type"@] == "INVOKE_FUNCTION"@
            &&& request.is_query ==> json_strings(post.body)["version"@] == hex_text(
                (pow2(128) + 1) as nat,
            )
            &&& !request.is_query ==> json_strings(post.body)["version"@] == hex_text(1)
            &&& json_string_lists(post.body)["calldata"@].len() == request.calldata@.len()
            &&& forall|i: int|
                0 <= i < request.calldata@.len() ==> json_string_lists(post.body)["calldata"@][i]
                    == hex_text((#[trigger] request.calldata@[i])@)
            &&& json_string_lists(post.body)["signature"@].len() == request.signature@.len()
            &&& forall|i: int|
                0 <= i < request.signature@.len() ==> json_string_lists(post.body)["signature"@][i]
                    == hex_text((#[trigger] request.signature@[i])@)
        },
{
    simulation_posts_the_transaction(
        client.constants,
        base,
        request@,
        block_number,
        skip_validate,
        step,
    );
    let body = step->Pending_0.body;
    assert forall|i: int| 0 <= i < request.calldata@.len() implies json_string_lists(
        body,
    )["calldata"@][i] == hex_text((#[trigger] request.calldata@[i])@) by {
        assert(request@.calldata[i] == request.calldata@[i]@);
    }
    assert forall|i: int| 0 <= i < request.signature@.len() implies json_string_lists(
        body,
    )["signature"@][i] == hex_text((#[trigger] request.signature@[i])@) by {
        assert(request@.signature[i] == request.signature@[i]@);
    }
}

/// A gateway whose URL takes no reference, or no gateway at all, is not asked.
pub proof fn client_asks_only_a_gateway<P, I, E>(
    client: &KakarotClient<P>,
    request: BroadcastedInvokeTransaction,
    block_number: u64,
    skip_validate: bool,
    step: Step<PostSimulation, TransactionSimulationInfo<I>, E>,
)
    requires
        call_ensures(
            KakarotClient::<P>::simulate_transaction::<I, E>,
            (client, request, block_number, skip_validate),
            step,
        ),
    ensures
        client.constants.gateway_url matches Some(base) ==> (url_joined(
            url_text(base),
            "simulate_transaction"@,
        ) matches Err(text) ==> step matches Step::Done(Err(EthApiError::FeederGatewayError(e)))
            && e@ == "gateway url parsing error: "@ + text),
        client.constants.gateway_url is None ==> {
            let gas = client.constants.estimate_gas;
            let price = client.constants.max_fee@;
            if gas.hi != 0 || gas.lo > u64::MAX {
                step matches Step::Done(
                    Err(EthApiError::ConversionError(ConversionError::UintConversionError(o))),
                ) && o.bits == 256 && o.wrapped == gas.lo % 0x1_0000_0000_0000_0000u128 && o.max
                    == u64::MAX
            } else if price > u64::MAX || gas.lo * price > u64::MAX {
                step matches Step::Done(
                    Err(EthApiError::ConversionError(ConversionError::FeltOutOfRange)),
                )
            } else {
                step matches Step::Done(Ok(info)) && {
                    &&& info.trace.function_invocation is None
                    &&& info.trace.fee_transfer_invocation is None
                    &&& info.trace.validate_invocation is None
                    &&& info.trace.signature@.len() == 0
                    &&& info.fee_estimation.gas_usage == gas.lo
                    &&& info.fee_estimation.gas_price == price
                    &&& info.fee_estimation.overall_fee == gas.lo * price
                    &&& info.fee_estimation.unit == FeeUnit::Wei
                }
            }
        },
{
    if client.constants.gateway_url is Some {
        simulation_posts_the_transaction(
            client.constants,
            client.constants.gateway_url->Some_0,
            request@,
            block_number,
            skip_validate,
            step,
        );
    } else {
        simulation_without_a_gateway_is_fixed(
            client.constants,
            request@,
            block_number,
            skip_validate,
            step,
        );
    }
}

/// What the gateway simulated is the outcome as it came, and each failure is told by its own words
/// and the text that came with it.
pub proof fn gateway_reply_is_the_outcome<I, E>(
    post: PostSimulation,
    reply: GatewayReply<I>,
    r: Result<TransactionSimulationInfo<I>, EthApiError<E>>,
)
    requires
        call_ensures(PostSimulation::resume::<I, E>, (post, reply), r),
    ensures
        reply matches GatewayReply::Simulated(info) ==> r == Ok::<
            TransactionSimulationInfo<I>,
            EthApiError<E>,
        >(info),
        reply matches GatewayReply::PostError(text) ==> r matches Err(
            EthApiError::FeederGatewayError(e),
        ) && e@ == "gateway post error: "@ + text@,
        reply matches GatewayReply::HttpError(text) ==> r matches Err(
            EthApiError::FeederGatewayError(e),
        ) && e@ == "http error: "@ + text@,
        reply matches GatewayReply::DecodeError(text) ==> r matches Err(
            EthApiError::FeederGatewayError(e),
        ) && e@ == "error while decoding response body to TransactionSimulationInfo: "@ + text@,
{
}

} // verus!
