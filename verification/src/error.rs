//! The errors of the client.
use vstd::prelude::*;

verus! {

/// The error codes that a Starknet node knows.
#[derive(Clone, Copy, Debug, PartialEq, Eq, Structural)]
pub enum StarknetError {
    FailedToReceiveTransaction,
    ContractNotFound,
    BlockNotFound,
    InvalidTransactionIndex,
    ClassHashNotFound,
    TransactionHashNotFound,
    PageSizeTooBig,
    NoBlocks,
    InvalidContinuationToken,
    TooManyKeysInFilter,
    ContractError,
    ClassAlreadyDeclared,
    InvalidTransactionNonce,
    InsufficientMaxFee,
    InsufficientAccountBalance,
    ValidationFailure,
    CompilationFailed,
    ContractClassSizeIsTooLarge,
    NonAccount,
    DuplicateTx,
    CompiledClassHashMismatch,
    UnsupportedTxVersion,
    UnsupportedContractClassVersion,
    UnexpectedError,
}

/// An error code as a node sends it: one of the known codes, or another number.
#[derive(Clone, Copy, Debug, PartialEq, Eq, Structural)]
pub enum MaybeUnknownErrorCode {
    Known(StarknetError),
    Unknown(i64),
}

/// An error that a Starknet node answered with.
#[derive(Debug)]
pub struct StarknetErrorWithMessage {
    pub code: MaybeUnknownErrorCode,
    pub message: String,
}

/// The failure of a request to the Starknet provider. `E` is the provider's own error.
#[derive(Debug)]
pub enum ProviderError<E> {
    StarknetError(StarknetErrorWithMessage),
    RateLimited,
    ArrayLengthMismatch,
    Other(E),
}

/// An unsigned integer of `bits` bits that did not fit a target whose largest value is `max`;
/// `wrapped` is what is left of it in the target's width.
#[derive(Clone, Copy, Debug, PartialEq, Eq, Structural)]
pub struct UintOverflow {
    pub bits: usize,
    pub wrapped: u128,
    pub max: u128,
}

/// The failure of a conversion between Ethereum and Starknet values.
#[derive(Debug)]
pub enum ConversionError {
    /// An unsigned integer is too large for its target.
    UintConversionError(UintOverflow),
    /// A value is out of the range of its target.
    ValueOutOfRange(String),
    /// A field element is too large for its target, or a number is too large for the field.
    FeltOutOfRange,
}

/// The failure of an operation of the client.
#[derive(Debug)]
pub enum EthApiError<E> {
    /// A request to the Starknet provider failed.
    RequestError(ProviderError<E>),
    /// A value could not be converted.
    ConversionError(ConversionError),
    /// A parameter that the operation needs was not given.
    MissingParameterError(String),
    /// The sequencer's gateway failed.
    FeederGatewayError(String),
    /// A contract of Kakarot failed otherwise, with this message.
    ContractError(String),
}

/// Whether `error` says that the node knows no contract at the address it was asked about.
pub open spec fn contract_not_found<E>(error: EthApiError<E>) -> bool {
    error matches EthApiError::RequestError(ProviderError::StarknetError(inner))
        && inner.code == MaybeUnknownErrorCode::Known(StarknetError::ContractNotFound)
}

impl<E> EthApiError<E> {
    /// Whether the error says that the node knows no contract at the address it was asked about.
    pub fn is_contract_not_found(&self) -> (r: bool)
        ensures
            r == contract_not_found(*self),
    {
        match self {
            EthApiError::RequestError(ProviderError::StarknetError(inner)) => match inner.code {
                MaybeUnknownErrorCode::Known(StarknetError::ContractNotFound) => true,
                _ => false,
            },
            _ => false,
        }
    }
}

} // verus!
