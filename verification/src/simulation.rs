//! The simulation of a transaction by the sequencer's gateway.
use crate::client::KakarotClient;
use crate::config::Constants;
use crate::error::{ConversionError, EthApiError};
use crate::felt::{modulus, Felt};
use crate::gateway::{
    append_query_pair, join_url, json_keys, json_string_lists, json_strings, replace_string_member,
    transaction_keys, transaction_lists, transaction_strings, transaction_to_value, url_joined,
    url_text, url_with_query_pair,
};
use crate::step::Step;
use crate::text::{bool_text, decimal, decimal_text, joined, truth};
use crate::transaction::{BroadcastedInvokeTransaction, InvokeTransactionView};
use crate::uint::{narrowed, U256};
use vstd::prelude::*;

verus! {

/// The unit of a fee.
#[derive(Clone, Copy, Debug, PartialEq, Eq, Structural)]
pub enum FeeUnit {
    Wei,
}

/// What a transaction would cost.
#[derive(Clone, Copy, Debug, PartialEq, Eq, Structural)]
pub struct FeeEstimate {
    pub overall_fee: u64,
    pub unit: FeeUnit,
    pub gas_price: u64,
    pub gas_usage: u64,
}

/// The trace of a simulated transaction. `I` is the trace of one invocation.
#[derive(Debug)]
pub struct TransactionTrace<I> {
    pub function_invocation: Option<I>,
    pub fee_transfer_invocation: Option<I>,
    pub validate_invocation: Option<I>,
    pub signature: Vec<Felt>,
}

/// What the simulation of a transaction gives.
#[derive(Debug)]
pub struct TransactionSimulationInfo<I> {
    pub trace: TransactionTrace<I>,
    pub fee_estimation: FeeEstimate,
}

impl<I> TransactionTrace<I> {
    /// Whether the trace holds nothing.
    pub open spec fn is_empty(self) -> bool {
        &&& self.function_invocation is None
        &&& self.fee_transfer_invocation is None
        &&& self.validate_invocation is None
        &&& self.signature@.len() == 0
    }
}

/// The fee of a simulation without a gateway: a fixed amount of gas at a fixed price, multiplied
/// in the field. It fails where the amount of gas, the price or the product does not fit 64 bits.
pub open spec fn fixed_fee(gas: nat, price: nat) -> Result<FeeEstimate, ConversionError> {
    let product = (gas * price) % modulus();
    match narrowed(gas, u64::MAX as u128) {
        Err(e) => Err(e),
        Ok(gas_usage) => if price <= u64::MAX && product <= u64::MAX {
            Ok(
                FeeEstimate {
                    overall_fee: product as u64,
                    unit: FeeUnit::Wei,
                    gas_price: price as u64,
                    gas_usage: gas_usage as u64,
                },
            )
        } else {
            Err(ConversionError::FeltOutOfRange)
        },
    }
}

/// Computes the fee of a simulation without a gateway.
pub fn fixed_fee_estimate(gas: U256, price: Felt) -> (r: Result<FeeEstimate, ConversionError>)
    ensures
        r == fixed_fee(gas@, price@),
{
    match gas.try_to_u64() {
        Err(e) => Err(e),
        Ok(gas_usage) => {
            let overall_fee = Felt::from_u64(gas_usage).times(price);
            match (price.to_u64(), overall_fee.to_u64()) {
                (Some(gas_price), Some(overall_fee)) => Ok(
                    FeeEstimate { overall_fee, unit: FeeUnit::Wei, gas_price, gas_usage },
                ),
                _ => Err(ConversionError::FeltOutOfRange),
            }
        },
    }
}

/// The overall fee of a simulation without a gateway is the product of its amount of gas and its
/// gas price as plain numbers: the field never wraps it.
pub proof fn fixed_fee_is_the_product(gas: nat, price: nat)
    ensures
        fixed_fee(gas, price) matches Ok(fee) ==> {
            &&& fee.gas_usage == gas
            &&& fee.gas_price == price
            &&& fee.overall_fee == gas * price
        },
{
    if gas <= u64::MAX && price <= u64::MAX {
        assert(gas * price <= u64::MAX * u64::MAX) by (nonlinear_arith)
            requires
                gas <= u64::MAX,
                price <= u64::MAX,
        ;
        vstd::arithmetic::div_mod::lemma_small_mod((gas * price) as nat, modulus());
    }
}

/// The request to the gateway to simulate a transaction: `body` is posted to `url` as JSON.
pub struct PostSimulation {
    pub url: reqwest::Url,
    pub body: serde_json::Value,
}

/// How the gateway took the request. The texts are the debug texts of the failures.
#[derive(Debug)]
pub enum GatewayReply<I> {
    /// The request could not be sent, or no response came.
    PostError(String),
    /// The status of the response is an error.
    HttpError(String),
    /// The body of the response is no simulation.
    DecodeError(String),
    /// The body of the response, decoded.
    Simulated(TransactionSimulationInfo<I>),
}

/// The URL of a simulation, where `endpoint` is the URL of the gateway's endpoint: the block and
/// whether validation is skipped stand in the query, in this order.
pub open spec fn simulation_url(
    endpoint: Seq<char>,
    block_number: u64,
    skip_validate: bool,
) -> Seq<char> {
    url_with_query_pair(
        url_with_query_pair(endpoint, "blockNumber"@, decimal_text(block_number as nat)),
        "skipValidate"@,
        bool_text(skip_validate),
    )
}

/// Whether `value` is the JSON form of `transaction` that the gateway's simulation takes: that of
/// the transaction itself, but for its type.
pub open spec fn is_simulation_body(
    value: serde_json::Value,
    transaction: InvokeTransactionView,
) -> bool {
    &&& json_keys(value) == transaction_keys()
    &&& json_strings(value) == transaction_strings(transaction, "INVOKE_FUNCTION"@)
    &&& json_string_lists(value) == transaction_lists(transaction)
}

/// Builds the JSON form of `transaction` that the gateway's simulation takes.
fn simulation_body<E>(transaction: &BroadcastedInvokeTransaction) -> (r: Result<
    serde_json::Value,
    EthApiError<E>,
>)
    ensures
        r is Ok,
        is_simulation_body(r->Ok_0, transaction@),
{
    match transaction_to_value(transaction) {
        Ok(mut value) => {
            replace_string_member(&mut value, "type", "INVOKE_FUNCTION");
            assert(json_strings(value) =~= transaction_strings(transaction@, "INVOKE_FUNCTION"@));
            Ok(value)
        },
        Err(text) => Err(
            EthApiError::FeederGatewayError(joined("request serializing error: ", text.as_str())),
        ),
    }
}

/// Whether `step` is how `transaction` is simulated, with the client's constants `constants`, on
/// the state of the block `block_number`. With a gateway, its endpoint is asked. Without one
/// nothing is asked: the simulation has an empty trace and a fixed fee.
pub open spec fn simulates<I, E>(
    constants: Constants,
    transaction: InvokeTransactionView,
    block_number: u64,
    skip_validate: bool,
    step: Step<PostSimulation, TransactionSimulationInfo<I>, E>,
) -> bool {
    match constants.gateway_url {
        None => match fixed_fee(constants.estimate_gas@, constants.max_fee@) {
            Ok(fee) => step matches Step::Done(Ok(info)) && info.trace.is_empty()
                && info.fee_estimation == fee,
            Err(e) => step == Step::<PostSimulation, TransactionSimulationInfo<I>, E>::Done(
                Err(EthApiError::ConversionError(e)),
            ),
        },
        Some(base) => match url_joined(url_text(base), "simulate_transaction"@) {
            Ok(endpoint) => step matches Step::Pending(post) && url_text(post.url)
                == simulation_url(endpoint, block_number, skip_validate) && is_simulation_body(
                post.body,
                transaction,
            ),
            Err(text) => step matches Step::Done(Err(EthApiError::FeederGatewayError(e))) && e@
                == "gateway url parsing error: "@ + text,
        },
    }
}

impl<P> KakarotClient<P> {
    /// Simulates `request` on the state of the block `block_number`.
    ///
    /// Without a gateway nothing is asked: the simulation has an empty trace and a fixed fee.
    pub fn simulate_transaction<I, E>(
        &self,
        request: BroadcastedInvokeTransaction,
        block_number: u64,
        skip_validate: bool,
    ) -> (step: Step<PostSimulation, TransactionSimulationInfo<I>, E>)
        ensures
            simulates(self.constants, request@, block_number, skip_validate, step),
    {
        match &self.constants.gateway_url {
            None => match fixed_fee_estimate(self.constants.estimate_gas, self.constants.max_fee) {
                Ok(fee_estimation) => Step::Done(
                    Ok(
                        TransactionSimulationInfo {
                            trace: TransactionTrace {
                                function_invocation: None,
                                fee_transfer_invocation: None,
                                validate_invocation: None,
                                signature: Vec::new(),
                            },
                            fee_estimation,
                        },
                    ),
                ),
                Err(e) => Step::Done(Err(EthApiError::ConversionError(e))),
            },
            Some(base) => match join_url(base, "simulate_transaction") {
                Err(text) => Step::Done(
                    Err(
                        EthApiError::FeederGatewayError(
                            joined("gateway url parsing error: ", text.as_str()),
                        ),
                    ),
                ),
                Ok(mut url) => {
                    append_query_pair(&mut url, "blockNumber", decimal(block_number).as_str());
                    append_query_pair(&mut url, "skipValidate", truth(skip_validate));
                    match simulation_body(&request) {
                        Ok(body) => Step::Pending(PostSimulation { url, body }),
                        Err(e) => Step::Done(Err(e)),
                    }
                },
            },
        }
    }
}

impl PostSimulation {
    /// What the simulation comes to when the gateway has replied.
    pub fn resume<I, E>(self, reply: GatewayReply<I>) -> (r: Result<
        TransactionSimulationInfo<I>,
        EthApiError<E>,
    >)
        ensures
            match reply {
                GatewayReply::Simulated(info) => r == Ok::<
                    TransactionSimulationInfo<I>,
                    EthApiError<E>,
                >(info),
                GatewayReply::PostError(text) => r matches Err(EthApiError::FeederGatewayError(e))
                    && e@ == "gateway post error: "@ + text@,
                GatewayReply::HttpError(text) => r matches Err(EthApiError::FeederGatewayError(e))
                    && e@ == "http error: "@ + text@,
                GatewayReply::DecodeError(text) => r matches Err(EthApiError::FeederGatewayError(e))
                    && e@ == "error while decoding response body to TransactionSimulationInfo: "@
                    + text@,
            },
    {
        match reply {
            GatewayReply::Simulated(info) => Ok(info),
            GatewayReply::PostError(text) => Err(
                EthApiError::FeederGatewayError(joined("gateway post error: ", text.as_str())),
            ),
            GatewayReply::HttpError(text) => Err(
                EthApiError::FeederGatewayError(joined("http error: ", text.as_str())),
            ),
            GatewayReply::DecodeError(text) => Err(
                EthApiError::FeederGatewayError(
                    joined(
                        "error while decoding response body to TransactionSimulationInfo: ",
                        text.as_str(),
                    ),
                ),
            ),
        }
    }
}

} // verus!
