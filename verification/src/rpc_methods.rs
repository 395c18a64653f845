//! The four kinds of message, each as a record of its own.

use vstd::prelude::*;
use vstd::std_specs::cmp::PartialEqSpecImpl;
use crate::error::{error_equal, Error as RpcError, ErrorValue};
use crate::id::{Id, IdValue};
use crate::json::{json_equal, Json, JsonValue};
use crate::params::{params_equal, Params, ParamsValue};

verus! {

/// The model of a message: its kind, and what a message of that kind holds.
/// The protocol version is no part of it: every message carries the same.
pub enum Message {
    Request { method: Seq<char>, params: Option<ParamsValue>, id: IdValue },
    Notification { method: Seq<char>, params: Option<ParamsValue> },
    Success { result: JsonValue, id: IdValue },
    Error { error: ErrorValue, id: IdValue },
}

impl Message {
    /// The identifier, of a message that has one.
    pub open spec fn id(self) -> Option<IdValue> {
        match self {
            Message::Request { id, .. } => Some(id),
            Message::Success { id, .. } => Some(id),
            Message::Error { id, .. } => Some(id),
            Message::Notification { .. } => None,
        }
    }

    /// The method, of a call.
    pub open spec fn method(self) -> Option<Seq<char>> {
        match self {
            Message::Request { method, .. } => Some(method),
            Message::Notification { method, .. } => Some(method),
            _ => None,
        }
    }

    /// The parameters, of a call that has any.
    pub open spec fn params(self) -> Option<ParamsValue> {
        match self {
            Message::Request { params, .. } => params,
            Message::Notification { params, .. } => params,
            _ => None,
        }
    }

    /// The result, of a success.
    pub open spec fn result(self) -> Option<JsonValue> {
        match self {
            Message::Success { result, .. } => Some(result),
            _ => None,
        }
    }

    /// The error object, of an error.
    pub open spec fn error(self) -> Option<ErrorValue> {
        match self {
            Message::Error { error, .. } => Some(error),
            _ => None,
        }
    }
}

/// The model of parameters that may be missing.
pub open spec fn params_view(params: Option<Params>) -> Option<ParamsValue> {
    match params {
        Some(params) => Some(params@),
        None => None,
    }
}

/// Whether two optional parameters say the same: missing on both sides, or
/// given on both sides and equal.
pub open spec fn optional_params_equal(a: Option<ParamsValue>, b: Option<ParamsValue>) -> bool {
    match (a, b) {
        (Some(x), Some(y)) => params_equal(x, y),
        (None, None) => true,
        _ => false,
    }
}

/// Whether two messages say the same: the same kind, and every part equal.
pub open spec fn message_equal(a: Message, b: Message) -> bool {
    match (a, b) {
        (
            Message::Request { method: method_a, params: params_a, id: id_a },
            Message::Request { method: method_b, params: params_b, id: id_b },
        ) => method_a == method_b && optional_params_equal(params_a, params_b) && id_a == id_b,
        (
            Message::Notification { method: method_a, params: params_a },
            Message::Notification { method: method_b, params: params_b },
        ) => method_a == method_b && optional_params_equal(params_a, params_b),
        (
            Message::Success { result: result_a, id: id_a },
            Message::Success { result: result_b, id: id_b },
        ) => json_equal(result_a, result_b) && id_a == id_b,
        (
            Message::Error { error: error_a, id: id_a },
            Message::Error { error: error_b, id: id_b },
        ) => error_equal(error_a, error_b) && id_a == id_b,
        _ => false,
    }
}

/// A copy of optional parameters.
pub fn clone_params(params: &Option<Params>) -> (r: Option<Params>)
    ensures
        params_view(r) == params_view(*params),
{
    match params {
        Some(params) => Some(params.clone()),
        None => None,
    }
}

/// Whether two optional parameters say the same.
pub fn same_params(a: &Option<Params>, b: &Option<Params>) -> (r: bool)
    ensures
        r == optional_params_equal(params_view(*a), params_view(*b)),
{
    match (a, b) {
        (Some(x), Some(y)) => *x == *y,
        (None, None) => true,
        _ => false,
    }
}

/// A call that expects an answer.
#[derive(Debug)]
pub struct Request {
    /// The name of the method to call.
    pub method: String,
    /// The parameters of the call, where it has any.
    pub params: Option<Params>,
    /// The identifier that the answer will repeat.
    pub id: Id,
}

impl View for Request {
    type V = Message;

    open spec fn view(&self) -> Message {
        Message::Request { method: self.method@, params: params_view(self.params), id: self.id@ }
    }
}

impl Clone for Request {
    fn clone(&self) -> (r: Request)
        ensures
            r@ == self@,
    {
        Request {
            method: self.method.clone(),
            params: clone_params(&self.params),
            id: self.id.clone(),
        }
    }
}

impl PartialEq for Request {
    fn eq(&self, other: &Request) -> (r: bool) {
        self.method == other.method && same_params(&self.params, &other.params) && self.id
            == other.id
    }
}

impl PartialEqSpecImpl for Request {
    open spec fn obeys_eq_spec() -> bool {
        true
    }

    open spec fn eq_spec(&self, other: &Request) -> bool {
        message_equal(self@, other@)
    }
}

/// A call that expects no answer: it has no identifier.
#[derive(Debug)]
pub struct Notification {
    /// The name of the method to call.
    pub method: String,
    /// The parameters of the call, where it has any.
    pub params: Option<Params>,
}

impl View for Notification {
    type V = Message;

    open spec fn view(&self) -> Message {
        Message::Notification { method: self.method@, params: params_view(self.params) }
    }
}

impl Clone for Notification {
    fn clone(&self) -> (r: Notification)
        ensures
            r@ == self@,
    {
        Notification { method: self.method.clone(), params: clone_params(&self.params) }
    }
}

impl PartialEq for Notification {
    fn eq(&self, other: &Notification) -> (r: bool) {
        self.method == other.method && same_params(&self.params, &other.params)
    }
}

impl PartialEqSpecImpl for Notification {
    open spec fn obeys_eq_spec() -> bool {
        true
    }

    open spec fn eq_spec(&self, other: &Notification) -> bool {
        message_equal(self@, other@)
    }
}

/// The answer to a call that succeeded.
#[derive(Debug)]
pub struct Success {
    /// What the method returned.
    pub result: Json,
    /// The identifier of the call.
    pub id: Id,
}

impl View for Success {
    type V = Message;

    open spec fn view(&self) -> Message {
        Message::Success { result: self.result@, id: self.id@ }
    }
}

impl Clone for Success {
    fn clone(&self) -> (r: Success)
        ensures
            r@ == self@,
    {
        Success { result: self.result.clone(), id: self.id.clone() }
    }
}

impl PartialEq for Success {
    fn eq(&self, other: &Success) -> (r: bool) {
        self.result == other.result && self.id == other.id
    }
}

impl PartialEqSpecImpl for Success {
    open spec fn obeys_eq_spec() -> bool {
        true
    }

    open spec fn eq_spec(&self, other: &Success) -> bool {
        message_equal(self@, other@)
    }
}

/// The answer to a call that failed.
#[derive(Debug)]
pub struct Error {
    /// What went wrong.
    pub error: RpcError,
    /// The identifier of the call, or null where it could not be told.
    pub id: Id,
}

impl View for Error {
    type V = Message;

    open spec fn view(&self) -> Message {
        Message::Error { error: self.error@, id: self.id@ }
    }
}

impl Clone for Error {
    fn clone(&self) -> (r: Error)
        ensures
            r@ == self@,
    {
        Error { error: self.error.clone(), id: self.id.clone() }
    }
}

impl PartialEq for Error {
    fn eq(&self, other: &Error) -> (r: bool) {
        self.error == other.error && self.id == other.id
    }
}

impl PartialEqSpecImpl for Error {
    open spec fn obeys_eq_spec() -> bool {
        true
    }

    open spec fn eq_spec(&self, other: &Error) -> bool {
        message_equal(self@, other@)
    }
}

} // verus!
