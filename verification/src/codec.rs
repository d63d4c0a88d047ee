//! The message codec: the frames that go out and the frames that come in.
//!
//! A call is written as `{jsonrpc:"2.0", method, params?, id}` and a
//! notification as the same without `id`. An incoming payload is read as a
//! response where it has the shape of one, and as a request otherwise.

use crate::decimal::{decimal_u64, read_decimal_u64};
use crate::error::{Error, ErrorView, RpcError, RpcErrorView};
use crate::json::{find_member, members_view, Json, JsonNumber, JsonView, NumberView};
use crate::params::{params_to_json, params_value, params_view, Params, ParamsView};
use crate::wire::{from_text, json_of_text, request_from_text, written};
use vstd::prelude::*;

verus! {

/// The id of a request, as a reply echoes it.
#[derive(Debug, PartialEq, Eq)]
pub enum Id {
    Null,
    Num(u64),
    Str(String),
}

/// The mathematical value of an [`Id`].
pub enum IdView {
    Null,
    Num(u64),
    Str(Seq<char>),
}

impl View for Id {
    type V = IdView;

    open spec fn view(&self) -> IdView {
        match self {
            Id::Null => IdView::Null,
            Id::Num(n) => IdView::Num(*n),
            Id::Str(s) => IdView::Str(s@),
        }
    }
}

impl Clone for Id {
    fn clone(&self) -> (r: Id)
        ensures
            r@ == self@,
    {
        match self {
            Id::Null => Id::Null,
            Id::Num(n) => Id::Num(*n),
            Id::Str(s) => Id::Str(s.clone()),
        }
    }
}

/// The protocol version that a frame declares.
#[derive(Debug, Clone, Copy, PartialEq, Eq)]
pub enum Version {
    /// JSON-RPC 2.0.
    V2,
}

/// A reply of the peer to a call.
#[derive(Debug, PartialEq)]
pub enum Output {
    /// The call succeeded.
    Success { jsonrpc: Option<Version>, result: Json, id: Id },
    /// The call failed.
    Failure { jsonrpc: Option<Version>, error: RpcError, id: Id },
}

/// The mathematical value of an [`Output`].
pub enum OutputView {
    Success { jsonrpc: Option<Version>, result: JsonView, id: IdView },
    Failure { jsonrpc: Option<Version>, error: RpcErrorView, id: IdView },
}

impl View for Output {
    type V = OutputView;

    open spec fn view(&self) -> OutputView {
        match self {
            Output::Success { jsonrpc, result, id } => OutputView::Success {
                jsonrpc: *jsonrpc,
                result: result@,
                id: id@,
            },
            Output::Failure { jsonrpc, error, id } => OutputView::Failure {
                jsonrpc: *jsonrpc,
                error: error@,
                id: id@,
            },
        }
    }
}

impl Output {
    /// The version that the reply declares: `Some(V2)` where its `jsonrpc`
    /// member is the string `"2.0"`, `None` where the member is anything else
    /// or missing.
    pub fn version(&self) -> (r: Option<Version>)
        ensures
            r == output_version(self@),
    {
        match self {
            Output::Success { jsonrpc, .. } => *jsonrpc,
            Output::Failure { jsonrpc, .. } => *jsonrpc,
        }
    }
}

/// The version that a reply declares.
pub open spec fn output_version(output: OutputView) -> Option<Version> {
    match output {
        OutputView::Success { jsonrpc, .. } => jsonrpc,
        OutputView::Failure { jsonrpc, .. } => jsonrpc,
    }
}

/// The id that a reply echoes.
pub open spec fn output_id(output: OutputView) -> IdView {
    match output {
        OutputView::Success { id, .. } => id,
        OutputView::Failure { id, .. } => id,
    }
}

/// One payload of the peer, read.
#[derive(Debug, PartialEq)]
pub enum IncomingMessage {
    /// A reply to a call of this client.
    Response(Output),
    /// A call or a notification of the peer, for the server handler.
    Request(jsonrpc_core::Request),
}

/// The mathematical value of an [`IncomingMessage`].
pub enum IncomingView {
    Response(OutputView),
    Request(jsonrpc_core::Request),
}

impl View for IncomingMessage {
    type V = IncomingView;

    open spec fn view(&self) -> IncomingView {
        match self {
            IncomingMessage::Response(o) => IncomingView::Response(o@),
            IncomingMessage::Request(r) => IncomingView::Request(*r),
        }
    }
}

/// The members that a call and a notification share: `jsonrpc`, `method`, and
/// `params` where there are parameters.
pub open spec fn request_members(method: Seq<char>, params: Option<ParamsView>) -> Seq<
    (Seq<char>, JsonView),
> {
    let head = seq![
        ("jsonrpc"@, JsonView::String("2.0"@)),
        ("method"@, JsonView::String(method)),
    ];
    match params {
        Some(p) => head.push(("params"@, params_value(Some(p)))),
        None => head,
    }
}

/// The frame of a call.
pub open spec fn call_frame(id: u64, method: Seq<char>, params: Option<ParamsView>) -> JsonView {
    JsonView::Object(
        request_members(method, params).push(("id"@, JsonView::Number(NumberView::PosInt(id)))),
    )
}

/// The frame of a notification.
pub open spec fn notification_frame(method: Seq<char>, params: Option<ParamsView>) -> JsonView {
    JsonView::Object(request_members(method, params))
}

/// The id that a value stands for: `null`, a non-negative integer or a string.
/// A string that is a decimal number stands for that number, so that an id
/// which the peer echoes as text finds its call.
pub open spec fn id_of(value: JsonView) -> Option<IdView> {
    match value {
        JsonView::Null => Some(IdView::Null),
        JsonView::Number(NumberView::PosInt(n)) => Some(IdView::Num(n)),
        JsonView::String(s) => match decimal_u64(s) {
            Some(n) => Some(IdView::Num(n)),
            None => Some(IdView::Str(s)),
        },
        _ => None,
    }
}

/// The error code that a value stands for: an integer that fits in 64 bits
/// with a sign.
pub open spec fn code_of(value: JsonView) -> Option<i64> {
    match value {
        JsonView::Number(NumberView::PosInt(n)) => if n <= i64::MAX {
            Some(n as i64)
        } else {
            None
        },
        JsonView::Number(NumberView::NegInt(n)) => Some(n),
        _ => None,
    }
}

/// The error object that a value stands for: an object with an integer
/// `code` and a string `message`. Its `data` is the member of that name,
/// unless that is missing or `null`.
pub open spec fn error_of(value: JsonView) -> Option<RpcErrorView> {
    match value {
        JsonView::Object(members) => match (
            find_member(members, "code"@),
            find_member(members, "message"@),
        ) {
            (Some(code), Some(JsonView::String(message))) => match code_of(code) {
                Some(code) => Some(
                    RpcErrorView {
                        code,
                        message,
                        data: match find_member(members, "data"@) {
                            Some(JsonView::Null) => None,
                            other => other,
                        },
                    },
                ),
                None => None,
            },
            _ => None,
        },
        _ => None,
    }
}

/// The version that the members of a frame declare.
pub open spec fn version_of(members: Seq<(Seq<char>, JsonView)>) -> Option<Version> {
    if find_member(members, "jsonrpc"@) == Some(JsonView::String("2.0"@)) {
        Some(Version::V2)
    } else {
        None
    }
}

/// The reply that a value stands for, if it has the shape of one: an object
/// with a valid `id` and either a valid `error` object or a `result`. Where it
/// has both, it is a failure.
pub open spec fn output_of(value: JsonView) -> Option<OutputView> {
    match value {
        JsonView::Object(members) => match find_member(members, "id"@) {
            Some(id) => match id_of(id) {
                Some(id) => {
                    let error = match find_member(members, "error"@) {
                        Some(e) => error_of(e),
                        None => None,
                    };
                    match error {
                        Some(error) => Some(
                            OutputView::Failure { jsonrpc: version_of(members), error, id },
                        ),
                        None => match find_member(members, "result"@) {
                            Some(result) => Some(
                                OutputView::Success { jsonrpc: version_of(members), result, id },
                            ),
                            None => None,
                        },
                    }
                },
                None => None,
            },
            None => None,
        },
        _ => None,
    }
}

/// Reads an id from a value.
pub fn read_id(value: &Json) -> (r: Option<Id>)
    ensures
        match r {
            Some(id) => id_of(value@) == Some(id@),
            None => id_of(value@) is None,
        },
{
    match value {
        Json::Null => Some(Id::Null),
        Json::Number(JsonNumber::PosInt(n)) => Some(Id::Num(*n)),
        Json::String(s) => match read_decimal_u64(s.as_str()) {
            Some(n) => Some(Id::Num(n)),
            None => Some(Id::Str(s.clone())),
        },
        _ => None,
    }
}

/// Reads an error code from a value.
pub fn read_code(value: &Json) -> (r: Option<i64>)
    ensures
        r == code_of(value@),
{
    match value {
        Json::Number(JsonNumber::PosInt(n)) => {
            if *n <= 0x7fff_ffff_ffff_ffffu64 {
                Some(*n as i64)
            } else {
                None
            }
        },
        Json::Number(JsonNumber::NegInt(n)) => Some(*n),
        _ => None,
    }
}

/// Reads an error object from a value.
pub fn read_error(value: &Json) -> (r: Option<RpcError>)
    ensures
        match r {
            Some(e) => error_of(value@) == Some(e@),
            None => error_of(value@) is None,
        },
{
    match value {
        Json::Object(members) => {
            let code = match Json::find(members, "code") {
                Some(c) => read_code(c),
                None => None,
            };
            let message = match Json::find(members, "message") {
                Some(Json::String(m)) => Some(m.clone()),
                _ => None,
            };
            match (code, message) {
                (Some(code), Some(message)) => {
                    let data = match Json::find(members, "data") {
                        Some(Json::Null) => None,
                        Some(d) => Some(d.clone()),
                        None => None,
                    };
                    Some(RpcError { code, message, data })
                },
                _ => None,
            }
        },
        _ => None,
    }
}

/// Reads the declared version from the members of a frame.
pub fn read_version(members: &Vec<(String, Json)>) -> (r: Option<Version>)
    ensures
        r == version_of(members_view(*members)),
{
    match Json::find(members, "jsonrpc") {
        Some(Json::String(v)) => {
            if crate::json::is_text(v, "2.0") {
                Some(Version::V2)
            } else {
                None
            }
        },
        _ => None,
    }
}

/// Reads a reply from a value, where the value has the shape of one.
pub fn read_output(value: &Json) -> (r: Option<Output>)
    ensures
        match r {
            Some(o) => output_of(value@) == Some(o@),
            None => output_of(value@) is None,
        },
{
    match value {
        Json::Object(members) => {
            let id = match Json::find(members, "id") {
                Some(i) => read_id(i),
                None => None,
            };
            match id {
                Some(id) => {
                    let error = match Json::find(members, "error") {
                        Some(e) => read_error(e),
                        None => None,
                    };
                    match error {
                        Some(error) => Some(
                            Output::Failure { jsonrpc: read_version(members), error, id },
                        ),
                        None => match Json::find(members, "result") {
                            Some(result) => Some(
                                Output::Success {
                                    jsonrpc: read_version(members),
                                    result: result.clone(),
                                    id,
                                },
                            ),
                            None => None,
                        },
                    }
                },
                None => None,
            }
        },
        _ => None,
    }
}

/// Builds the members that a call and a notification share.
fn build_request_members(method: String, params: &Option<Params>) -> (members: Vec<(String, Json)>)
    ensures
        members_view(members) == request_members(method@, params_view(*params)),
{
    let mut members: Vec<(String, Json)> = Vec::new();
    members.push(("jsonrpc".to_owned(), Json::String("2.0".to_owned())));
    members.push(("method".to_owned(), Json::String(method)));
    match params {
        Some(p) => {
            members.push(("params".to_owned(), params_to_json(Some(p.clone()))));
        },
        None => {},
    }
    assert(members_view(members) =~= request_members(method@, params_view(*params)));
    members
}

/// Writes the frame of a call to `method` with the given id and parameters.
///
/// The result is the text of [`call_frame`]. It is `SerializeError` exactly
/// where that frame has no text: where an object in the parameters has two
/// members of one name, or the serializer gives none.
pub fn serialize_method_request(id: u64, method: String, params: &Option<Params>) -> (r: Result<
    String,
    Error,
>)
    ensures
        match r {
            Ok(text) => written(call_frame(id, method@, params_view(*params))) == Some(text@),
            Err(e) => e@ == ErrorView::SerializeError && written(
                call_frame(id, method@, params_view(*params)),
            ) is None,
        },
{
    let mut members = build_request_members(method, params);
    let ghost shared = members_view(members);
    members.push(("id".to_owned(), Json::Number(JsonNumber::PosInt(id))));
    assert(members_view(members) =~= shared.push(
        ("id"@, JsonView::Number(NumberView::PosInt(id))),
    ));
    let frame = Json::Object(members);
    match frame.to_text() {
        Some(text) => Ok(text),
        None => Err(Error::SerializeError),
    }
}

/// Writes the frame of a notification to `method` with the given parameters.
///
/// The result is the text of [`notification_frame`]. It is `SerializeError`
/// exactly where that frame has no text: where an object in the parameters
/// has two members of one name, or the serializer gives none.
pub fn serialize_notification_request(method: String, params: &Option<Params>) -> (r: Result<
    String,
    Error,
>)
    ensures
        match r {
            Ok(text) => written(notification_frame(method@, params_view(*params))) == Some(text@),
            Err(e) => e@ == ErrorView::SerializeError && written(
                notification_frame(method@, params_view(*params)),
            ) is None,
        },
{
    let frame = Json::Object(build_request_members(method, params));
    match frame.to_text() {
        Some(text) => Ok(text),
        None => Err(Error::SerializeError),
    }
}

/// The reply that a payload holds, if the payload is a JSON text with the
/// shape of a reply.
pub open spec fn response_in(text: Seq<char>) -> Option<OutputView> {
    match json_of_text(text) {
        Some(value) => output_of(value),
        None => None,
    }
}

/// The view of a reply that may be absent.
pub open spec fn output_view(output: Option<Output>) -> Option<OutputView> {
    match output {
        Some(o) => Some(o@),
        None => None,
    }
}

/// Says what a payload is, given the reply and the request that were read from
/// it: the reply where there is one, else the request, else nothing.
pub fn classify_incoming(output: Option<Output>, request: Option<jsonrpc_core::Request>) -> (r:
    Result<IncomingMessage, Error>)
    ensures
        match (output, request) {
            (Some(o), _) => r == Ok::<IncomingMessage, Error>(IncomingMessage::Response(o)),
            (None, Some(q)) => r == Ok::<IncomingMessage, Error>(IncomingMessage::Request(q)),
            (None, None) => r == Err::<IncomingMessage, Error>(Error::DeserializeError),
        },
{
    match output {
        Some(o) => Ok(IncomingMessage::Response(o)),
        None => match request {
            Some(q) => Ok(IncomingMessage::Request(q)),
            None => Err(Error::DeserializeError),
        },
    }
}

/// Reads one payload of the peer: as a reply first, as a request otherwise.
///
/// The result is the reply [`response_in`] where there is one. Any other JSON
/// text is a request, and a text that is no JSON is `DeserializeError`.
pub fn parse_incoming(text: &str) -> (r: Result<IncomingMessage, Error>)
    ensures
        match r {
            Ok(IncomingMessage::Response(o)) => response_in(text@) == Some(o@),
            Ok(IncomingMessage::Request(_)) => response_in(text@) is None && json_of_text(text@)
                is Some,
            Err(e) => e@ == ErrorView::DeserializeError && json_of_text(text@) is None,
        },
{
    let output = match from_text(text) {
        Some(value) => read_output(&value),
        None => None,
    };
    let request = if output.is_some() {
        None
    } else {
        request_from_text(text)
    };
    classify_incoming(output, request)
}

} // verus!
