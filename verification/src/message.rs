//! The messages of a language server session.
//!
//! The texts of messages are named by what the messages hold. They show the parameters and
//! results in the order in which `serde_json` keeps the members of an object, which is that
//! of their names, and its numbers by their values, as it is used without its features
//! `preserve_order` and `arbitrary_precision`.

use serde_json::Value;
use vstd::prelude::*;

use crate::json::{self, Json};

verus! {

/// The id that a response has in common with its request.
pub enum RequestId {
    Number(i32),
    Text(String),
}

/// A request id by its value: a number is never the same as a text.
pub enum Id {
    Number(i32),
    Text(Seq<char>),
}

impl View for RequestId {
    type V = Id;

    open spec fn view(&self) -> Id {
        match self {
            RequestId::Number(n) => Id::Number(*n),
            RequestId::Text(text) => Id::Text(text@),
        }
    }
}

impl Clone for RequestId {
    fn clone(&self) -> (copy: RequestId)
        ensures
            copy == *self,
    {
        match self {
            RequestId::Number(n) => RequestId::Number(*n),
            RequestId::Text(text) => RequestId::Text(text.clone()),
        }
    }
}

impl RequestId {
    /// Whether two ids are the same.
    pub fn same(&self, other: &RequestId) -> (yes: bool)
        ensures
            yes == (self@ == other@),
    {
        match (self, other) {
            (RequestId::Number(a), RequestId::Number(b)) => *a == *b,
            (RequestId::Text(a), RequestId::Text(b)) => *a == *b,
            _ => false,
        }
    }
}

/// A request: it is answered by a response with the same id.
pub struct Request {
    pub id: RequestId,
    pub method: String,
    pub params: Value,
}

/// Why a request failed.
pub struct ResponseError {
    pub code: i32,
    pub message: String,
    pub data: Option<Value>,
}

/// The answer to a request: a result or an error.
pub struct Response {
    pub id: RequestId,
    pub result: Option<Value>,
    pub error: Option<ResponseError>,
}

/// A notification: it is not answered.
pub struct Notification {
    pub method: String,
    pub params: Value,
}

/// Any message of a session.
pub enum Message {
    Request(Request),
    Response(Response),
    Notification(Notification),
}

/// The error of a response, by its values.
pub struct ErrorView {
    pub code: i32,
    pub message: Seq<char>,
    pub data: Option<Json>,
}

/// The error of a response, if it has one, by its values.
pub open spec fn error_view(error: Option<ResponseError>) -> Option<ErrorView> {
    match error {
        Some(error) => Some(
            ErrorView {
                code: error.code,
                message: error.message@,
                data: json::optional_json(error.data),
            },
        ),
        None => None,
    }
}

/// The text of `lsp_server::RequestId` in the format `{}`.
pub uninterp spec fn id_text(id: Id) -> Seq<char>;

/// The text of `lsp_server::RequestId` in the format `{:?}`.
pub uninterp spec fn id_debug_text(id: Id) -> Seq<char>;

/// The text of `lsp_server::Request` in the format `{:?}`.
pub uninterp spec fn request_debug_text(id: Id, method: Seq<char>, params: Json) -> Seq<char>;

/// The text of `lsp_server::Response` in the format `{:?}`.
pub uninterp spec fn response_debug_text(
    id: Id,
    result: Option<Json>,
    error: Option<ErrorView>,
) -> Seq<char>;

/// The text of a response in the format `{:?}`.
pub open spec fn debug_text(response: Response) -> Seq<char> {
    response_debug_text(
        response.id@,
        json::optional_json(response.result),
        error_view(response.error),
    )
}

/// Formats an id by the `Display` of `lsp_server::RequestId`.
#[verifier::external_body]
pub(crate) fn display_id(id: &RequestId) -> (text: String)
    ensures
        text@ == id_text(id@),
{
    let id = match id {
        RequestId::Number(n) => lsp_server::RequestId::from(*n),
        RequestId::Text(text) => lsp_server::RequestId::from(text.clone()),
    };
    format!("{}", id)
}

/// Formats an id by the `Debug` of `lsp_server::RequestId`.
#[verifier::external_body]
pub(crate) fn debug_id(id: &RequestId) -> (text: String)
    ensures
        text@ == id_debug_text(id@),
{
    let id = match id {
        RequestId::Number(n) => lsp_server::RequestId::from(*n),
        RequestId::Text(text) => lsp_server::RequestId::from(text.clone()),
    };
    format!("{:?}", id)
}

/// Formats a request by the `Debug` of `lsp_server::Request`.
#[verifier::external_body]
pub(crate) fn debug_request(request: &Request) -> (text: String)
    ensures
        text@ == request_debug_text(request.id@, request.method@, json::json_of(request.params)),
{
    let id = match &request.id {
        RequestId::Number(n) => lsp_server::RequestId::from(*n),
        RequestId::Text(text) => lsp_server::RequestId::from(text.clone()),
    };
    let (method, params) = (request.method.clone(), request.params.clone());
    format!("{:?}", lsp_server::Request { id, method, params })
}

/// Formats a response by the `Debug` of `lsp_server::Response`.
#[verifier::external_body]
pub(crate) fn debug_response(response: &Response) -> (text: String)
    ensures
        text@ == response_debug_text(
            response.id@,
            json::optional_json(response.result),
            error_view(response.error),
        ),
{
    let id = match &response.id {
        RequestId::Number(n) => lsp_server::RequestId::from(*n),
        RequestId::Text(text) => lsp_server::RequestId::from(text.clone()),
    };
    let error = response.error.as_ref().map(|error| {
        let (message, data) = (error.message.clone(), error.data.clone());
        lsp_server::ResponseError { code: error.code, message, data }
    });
    format!("{:?}", lsp_server::Response { id, result: response.result.clone(), error })
}

} // verus!
