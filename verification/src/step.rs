//! How an operation proceeds.
//!
//! An operation of the client alternates requests to the outside with decisions on the replies.
//! A request is a value: its public fields say what is asked. Whoever runs the operation performs
//! the request and hands the reply to the request's `resume`, which says what comes next. Where a
//! request has no `resume`, the reply to it is the outcome of the operation.
use crate::error::EthApiError;
use vstd::prelude::*;

verus! {

/// What an operation comes to: a request `S` whose reply it waits for, or its outcome.
#[derive(Debug)]
pub enum Step<S, T, E> {
    Pending(S),
    Done(Result<T, EthApiError<E>>),
}

} // verus!
