//! The errors of the client.

use crate::json::{Json, JsonView};
use vstd::prelude::*;

verus! {

/// The error object of a failed reply: `{code, message, data?}`.
#[derive(Debug, PartialEq)]
pub struct RpcError {
    pub code: i64,
    pub message: String,
    pub data: Option<Json>,
}

/// The mathematical value of an [`RpcError`].
pub struct RpcErrorView {
    pub code: i64,
    pub message: Seq<char>,
    pub data: Option<JsonView>,
}

impl View for RpcError {
    type V = RpcErrorView;

    open spec fn view(&self) -> RpcErrorView {
        RpcErrorView {
            code: self.code,
            message: self.message@,
            data: match self.data {
                Some(d) => Some(d@),
                None => None,
            },
        }
    }
}

impl Clone for RpcError {
    fn clone(&self) -> (r: RpcError)
        ensures
            r@ == self@,
    {
        let data = match &self.data {
            Some(d) => Some(d.clone()),
            None => None,
        };
        RpcError { code: self.code, message: self.message.clone(), data }
    }
}

/// What can go wrong for a caller or for the engine.
#[derive(Debug, PartialEq)]
pub enum Error {
    /// The sink or the source of the transport reported an error.
    TransportError,
    /// An outgoing value could not be encoded.
    SerializeError,
    /// An incoming payload could not be read, or a reply does not have the
    /// type that its caller expects.
    DeserializeError,
    /// A reply did not declare version 2.0.
    InvalidVersion,
    /// The client has shut down.
    Shutdown,
    /// The peer answered a call with an error object.
    JsonRpcError(RpcError),
}

/// The mathematical value of an [`Error`].
pub enum ErrorView {
    TransportError,
    SerializeError,
    DeserializeError,
    InvalidVersion,
    Shutdown,
    JsonRpcError(RpcErrorView),
}

impl View for Error {
    type V = ErrorView;

    open spec fn view(&self) -> ErrorView {
        match self {
            Error::TransportError => ErrorView::TransportError,
            Error::SerializeError => ErrorView::SerializeError,
            Error::DeserializeError => ErrorView::DeserializeError,
            Error::InvalidVersion => ErrorView::InvalidVersion,
            Error::Shutdown => ErrorView::Shutdown,
            Error::JsonRpcError(e) => ErrorView::JsonRpcError(e@),
        }
    }
}

impl Clone for Error {
    fn clone(&self) -> (r: Error)
        ensures
            r@ == self@,
    {
        match self {
            Error::TransportError => Error::TransportError,
            Error::SerializeError => Error::SerializeError,
            Error::DeserializeError => Error::DeserializeError,
            Error::InvalidVersion => Error::InvalidVersion,
            Error::Shutdown => Error::Shutdown,
            Error::JsonRpcError(e) => Error::JsonRpcError(e.clone()),
        }
    }
}

impl Error {
    /// Whether this is the graceful [`Error::Shutdown`].
    pub fn is_shutdown(&self) -> (r: bool)
        ensures
            r == (self@ == ErrorView::Shutdown),
    {
        match self {
            Error::Shutdown => true,
            _ => false,
        }
    }
}

/// The view of a result that carries a value.
pub open spec fn reply_view(reply: Result<Json, Error>) -> Result<JsonView, ErrorView> {
    match reply {
        Ok(v) => Ok(v@),
        Err(e) => Err(e@),
    }
}

/// The view of a result that carries no value.
pub open spec fn status_view(status: Result<(), Error>) -> Result<(), ErrorView> {
    match status {
        Ok(()) => Ok(()),
        Err(e) => Err(e@),
    }
}

} // verus!
