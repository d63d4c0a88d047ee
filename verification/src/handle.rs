//! The producer side: what a caller hands to the engine, and what the caller
//! makes of the answer.

use crate::client::OutgoingMessage;
use crate::error::{reply_view, status_view, Error, ErrorView};
use crate::json::{Json, JsonView};
use crate::params::{normalize, params_view, serialize_parameters};
use vstd::prelude::*;

verus! {

/// Creates the messages of calls and notifications and resolves their
/// outcomes. Handles are free to copy; each message that one makes goes into
/// the outgoing queue of the engine.
#[derive(Debug, Clone, Copy, PartialEq, Eq)]
pub struct ClientHandle {}

/// What a caller gets, given what became of its message: the error that
/// stopped the message before the queue; `Shutdown` if the queue was closed
/// or the reply handle was dropped; and the reply otherwise.
pub open spec fn resolution<T>(
    refused: Option<ErrorView>,
    queued: bool,
    reply: Option<Result<T, ErrorView>>,
) -> Result<T, ErrorView> {
    match refused {
        Some(e) => Err(e),
        None => if !queued {
            Err(ErrorView::Shutdown)
        } else {
            match reply {
                Some(r) => r,
                None => Err(ErrorView::Shutdown),
            }
        },
    }
}

/// The view of a reply that may be missing.
pub open spec fn maybe_reply_view(reply: Option<Result<Json, Error>>) -> Option<
    Result<JsonView, ErrorView>,
> {
    match reply {
        Some(r) => Some(reply_view(r)),
        None => None,
    }
}

/// The view of an acknowledgement that may be missing.
pub open spec fn maybe_status_view(status: Option<Result<(), Error>>) -> Option<
    Result<(), ErrorView>,
> {
    match status {
        Some(r) => Some(status_view(r)),
        None => None,
    }
}

/// The view of an error that may be absent.
pub open spec fn refusal_view(client_call: Result<(), Error>) -> Option<ErrorView> {
    match client_call {
        Ok(()) => None,
        Err(e) => Some(e@),
    }
}

impl ClientHandle {
    /// A handle.
    pub fn new() -> (r: ClientHandle) {
        ClientHandle {  }
    }

    /// The message that invokes `method` with `parameters`; the reply goes to
    /// `completion`. The parameters are normalized.
    pub fn call_method<C, N>(&self, method: String, parameters: Json, completion: C) -> (r:
        OutgoingMessage<C, N>)
        ensures
            r matches OutgoingMessage::RpcCall(m, p, c) && m == method && params_view(p)
                == normalize(parameters@) && c == completion,
    {
        OutgoingMessage::RpcCall(method, serialize_parameters(parameters), completion)
    }

    /// Resolves a call. `client_call` is the error that stopped the message
    /// before it was made, if any; `queued` says whether the outgoing queue
    /// took the message; `reply` is what came through the reply handle, and
    /// `None` if the handle was dropped. See [`resolution`].
    pub fn send_client_call(
        &self,
        client_call: Result<(), Error>,
        queued: bool,
        reply: Option<Result<Json, Error>>,
    ) -> (r: Result<Json, Error>)
        ensures
            reply_view(r) == resolution(
                refusal_view(client_call),
                queued,
                maybe_reply_view(reply),
            ),
    {
        match client_call {
            Err(e) => Err(e),
            Ok(()) => {
                if !queued {
                    Err(Error::Shutdown)
                } else {
                    match reply {
                        Some(r) => r,
                        None => Err(Error::Shutdown),
                    }
                }
            },
        }
    }

    /// The message that sends the notification `method` with `parameters`;
    /// the acknowledgement goes to `completion`. The parameters are
    /// normalized.
    pub fn send_notification<C, N>(&self, method: String, parameters: Json, completion: N) -> (r:
        OutgoingMessage<C, N>)
        ensures
            r matches OutgoingMessage::Notification(m, p, n) && m == method && params_view(p)
                == normalize(parameters@) && n == completion,
    {
        OutgoingMessage::Notification(method, serialize_parameters(parameters), completion)
    }

    /// Resolves a notification, as [`ClientHandle::send_client_call`]
    /// resolves a call. The acknowledgement says that the notification was
    /// handed to the transport, not that the peer got it.
    pub fn notification_sent(&self, queued: bool, status: Option<Result<(), Error>>) -> (r: Result<
        (),
        Error,
    >)
        ensures
            status_view(r) == resolution(None, queued, maybe_status_view(status)),
    {
        if !queued {
            Err(Error::Shutdown)
        } else {
            match status {
                Some(r) => r,
                None => Err(Error::Shutdown),
            }
        }
    }
}

} // verus!
