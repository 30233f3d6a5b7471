//! The error of the middleware: an error of the wrapped middleware, or an
//! error object returned by the node's RPC API.
use vstd::prelude::*;

verus! {

/// A JSON-RPC error object: its code, message and optional JSON data.
#[derive(Clone, Debug, PartialEq, Eq)]
pub struct RpcErrorObject {
    pub code: i32,
    pub message: String,
    /// The error's data, as JSON text.
    pub data: Option<String>,
}

/// An error of the middleware. `E` is the error type of the wrapped
/// middleware.
#[derive(Clone, Debug, PartialEq, Eq)]
pub enum RethMiddlewareError<E> {
    /// An error occurred in one of the middlewares.
    MiddlewareError(E),
    /// An error occurred in the Reth API.
    RethApiError(RpcErrorObject),
}

/// The error of the inner middleware that a middleware error carries, if any.
pub open spec fn inner_error<E>(err: RethMiddlewareError<E>) -> Option<E> {
    match err {
        RethMiddlewareError::MiddlewareError(e) => Some(e),
        RethMiddlewareError::RethApiError(_) => None,
    }
}

impl<E> RethMiddlewareError<E> {
    /// Wraps an error of the inner middleware.
    pub fn from_err(e: E) -> (r: Self)
        ensures
            r == RethMiddlewareError::<E>::MiddlewareError(e),
    {
        RethMiddlewareError::MiddlewareError(e)
    }

    /// The error of the inner middleware, if this is one.
    pub fn as_inner(&self) -> (r: Option<&E>)
        ensures
            r is Some <==> inner_error(*self) is Some,
            r matches Some(x) ==> inner_error(*self) == Some(*x),
    {
        match self {
            RethMiddlewareError::MiddlewareError(e) => Some(e),
            _ => None,
        }
    }
}

impl<E> From<RpcErrorObject> for RethMiddlewareError<E> {
    fn from(e: RpcErrorObject) -> (r: Self) {
        RethMiddlewareError::RethApiError(e)
    }
}

impl<E> vstd::std_specs::convert::FromSpecImpl<RpcErrorObject> for RethMiddlewareError<E> {
    open spec fn obeys_from_spec() -> bool {
        true
    }

    open spec fn from_spec(v: RpcErrorObject) -> Self {
        RethMiddlewareError::RethApiError(v)
    }
}

/// An error of the inner middleware, wrapped, is found again as the inner
/// error; an error of the node's API, converted, has no inner error.
pub proof fn lemma_inner_error_found_again<E>(e: E, api: RpcErrorObject)
    ensures
        inner_error(RethMiddlewareError::<E>::MiddlewareError(e)) == Some(e),
        inner_error(
            <RethMiddlewareError<E> as vstd::std_specs::convert::FromSpec<
                RpcErrorObject,
            >>::from_spec(api),
        ) is None,
{
}

} // verus!
