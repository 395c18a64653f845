//! Messages: how they are built, taken apart, written and read.

use vstd::prelude::*;
use vstd::std_specs::cmp::PartialEqSpecImpl;
use crate::classify::{
    batch_of,
    classify,
    classify_batch,
    classify_parsed,
    failure,
    shape,
    Batch,
};
use crate::error::{Error as RpcError, ErrorCode};
use crate::id::{Id, IntoId};
use crate::json::{
    items_view,
    lemma_items_view,
    lemma_members_view,
    members_view,
    optional_view,
    Json,
    Object,
};
use crate::names::{ERROR, ID, JSONRPC, METHOD, PARAMS, RESULT, VERSION};
use crate::params::{IntoParams, Params};
use crate::rpc_methods::{
    clone_params,
    message_equal,
    params_view,
    Error,
    Message,
    Notification,
    Request,
    Success,
};
use crate::text::{parsed_bytes, parsed_text, read_slice, read_str};
use crate::version::{versioned, VersionError, VersionFault};
use crate::wire::{lemma_wire_unique, wire, wire_members};

verus! {

/// A message of any of the four kinds.
#[derive(Debug)]
pub enum JsonRpc {
    /// A call that expects an answer.
    Request(Request),
    /// A call that expects none.
    Notification(Notification),
    /// The answer to a call that succeeded.
    Success(Success),
    /// The answer to a call that failed.
    Error(Error),
}

impl View for JsonRpc {
    type V = Message;

    open spec fn view(&self) -> Message {
        match self {
            JsonRpc::Request(v) => v@,
            JsonRpc::Notification(v) => v@,
            JsonRpc::Success(v) => v@,
            JsonRpc::Error(v) => v@,
        }
    }
}

/// The model of an outcome.
pub open spec fn outcome_view(outcome: Result<JsonRpc, VersionError>) -> Result<
    Message,
    VersionFault,
> {
    match outcome {
        Ok(message) => Ok(message@),
        Err(error) => Err(error@),
    }
}

/// The models of a sequence of outcomes, in order.
pub open spec fn outcomes_view(outcomes: Seq<Result<JsonRpc, VersionError>>) -> Seq<
    Result<Message, VersionFault>,
> {
    Seq::new(outcomes.len(), |i: int| outcome_view(outcomes[i]))
}

impl JsonRpc {
    /// A request without parameters.
    pub fn request<I: IntoId>(id: I, method: &str) -> (r: JsonRpc)
        ensures
            r@ == (Message::Request { method: method@, params: None, id: id.id_value() }),
    {
        JsonRpc::Request(Request { method: method.to_owned(), params: None, id: id.into_id() })
    }

    /// A request with parameters.
    pub fn request_with_params<I: IntoId, P: IntoParams>(id: I, method: &str, params: P) -> (r:
        JsonRpc)
        ensures
            r@ == (Message::Request {
                method: method@,
                params: Some(params.params_value()),
                id: id.id_value(),
            }),
    {
        JsonRpc::Request(
            Request {
                method: method.to_owned(),
                params: Some(params.into_params()),
                id: id.into_id(),
            },
        )
    }

    /// A notification without parameters.
    pub fn notification(method: &str) -> (r: JsonRpc)
        ensures
            r@ == (Message::Notification { method: method@, params: None }),
    {
        JsonRpc::Notification(Notification { method: method.to_owned(), params: None })
    }

    /// A notification with parameters.
    pub fn notification_with_params<P: IntoParams>(method: &str, params: P) -> (r: JsonRpc)
        ensures
            r@ == (Message::Notification {
                method: method@,
                params: Some(params.params_value()),
            }),
    {
        JsonRpc::Notification(
            Notification { method: method.to_owned(), params: Some(params.into_params()) },
        )
    }

    /// The answer to a call that succeeded, with a copy of `result`.
    pub fn success<I: IntoId>(id: I, result: &Json) -> (r: JsonRpc)
        ensures
            r@ == (Message::Success { result: result@, id: id.id_value() }),
    {
        JsonRpc::Success(Success { result: result.clone(), id: id.into_id() })
    }

    /// The answer to a call that failed.
    pub fn error<I: IntoId>(id: I, error: RpcError) -> (r: JsonRpc)
        ensures
            r@ == (Message::Error { error: error@, id: id.id_value() }),
    {
        JsonRpc::Error(Error { error, id: id.into_id() })
    }

    /// The error answer for text that was not JSON.
    pub fn parse_error<I: IntoId>(id: I) -> (r: JsonRpc)
        ensures
            r@ == failure(id.id_value(), ErrorCode::ParseError),
    {
        Self::error(id, RpcError::parse_error())
    }

    /// The error answer for JSON that is no message.
    pub fn invalid_request_error<I: IntoId>(id: I) -> (r: JsonRpc)
        ensures
            r@ == failure(id.id_value(), ErrorCode::InvalidRequest),
    {
        Self::error(id, RpcError::invalid_request())
    }

    /// The error answer for a method that does not exist.
    pub fn method_not_found_error<I: IntoId>(id: I) -> (r: JsonRpc)
        ensures
            r@ == failure(id.id_value(), ErrorCode::MethodNotFound),
    {
        Self::error(id, RpcError::method_not_found())
    }

    /// The error answer for parameters that do not fit the method.
    pub fn invalid_params_error<I: IntoId>(id: I) -> (r: JsonRpc)
        ensures
            r@ == failure(id.id_value(), ErrorCode::InvalidParams),
    {
        Self::error(id, RpcError::invalid_params())
    }

    /// The error answer for an error inside the server.
    pub fn internal_error<I: IntoId>(id: I) -> (r: JsonRpc)
        ensures
            r@ == failure(id.id_value(), ErrorCode::InternalError),
    {
        Self::error(id, RpcError::internal_error())
    }

    /// The error answer for an error that the server defines.
    pub fn server_error<I: IntoId>(id: I, code: i64) -> (r: JsonRpc)
        ensures
            r@ == failure(id.id_value(), ErrorCode::ServerError(code)),
    {
        Self::error(id, RpcError::server_error(code))
    }

    /// The protocol version, which every message carries.
    pub fn get_version(&self) -> (r: Option<&str>)
        ensures
            r matches Some(version) && version@ == VERSION@,
    {
        Some(VERSION)
    }

    /// A copy of the identifier, of a message that has one.
    pub fn get_id(&self) -> (r: Option<Id>)
        ensures
            match r {
                Some(id) => self@.id() == Some(id@),
                None => self@.id() is None,
            },
    {
        match *self {
            JsonRpc::Request(ref v) => Some(v.id.clone()),
            JsonRpc::Success(ref v) => Some(v.id.clone()),
            JsonRpc::Error(ref v) => Some(v.id.clone()),
            _ => None,
        }
    }

    /// The method, of a call.
    pub fn get_method(&self) -> (r: Option<&str>)
        ensures
            match r {
                Some(method) => self@.method() == Some(method@),
                None => self@.method() is None,
            },
    {
        match *self {
            JsonRpc::Notification(ref v) => Some(v.method.as_str()),
            JsonRpc::Request(ref v) => Some(v.method.as_str()),
            _ => None,
        }
    }

    /// A copy of the parameters, of a call that has any.
    pub fn get_params(&self) -> (r: Option<Params>)
        ensures
            params_view(r) == self@.params(),
    {
        match *self {
            JsonRpc::Notification(ref v) => clone_params(&v.params),
            JsonRpc::Request(ref v) => clone_params(&v.params),
            _ => None,
        }
    }

    /// The result, of a success.
    pub fn get_result(&self) -> (r: Option<&Json>)
        ensures
            optional_view(r) == self@.result(),
    {
        match *self {
            JsonRpc::Success(ref v) => Some(&v.result),
            _ => None,
        }
    }

    /// The error object, of an error.
    pub fn get_error(&self) -> (r: Option<&RpcError>)
        ensures
            match r {
                Some(error) => self@.error() == Some(error@),
                None => self@.error() is None,
            },
    {
        match *self {
            JsonRpc::Error(ref v) => Some(&v.error),
            _ => None,
        }
    }

    /// Whether the message is a request.
    pub fn is_request(&self) -> (r: bool)
        ensures
            r == (self@ is Request),
    {
        if let JsonRpc::Request(_) = *self {
            true
        } else {
            false
        }
    }

    /// Whether the message is a notification.
    pub fn is_notification(&self) -> (r: bool)
        ensures
            r == (self@ is Notification),
    {
        if let JsonRpc::Notification(_) = *self {
            true
        } else {
            false
        }
    }

    /// Whether the message is the answer to a call that succeeded.
    pub fn is_success(&self) -> (r: bool)
        ensures
            r == (self@ is Success),
    {
        if let JsonRpc::Success(_) = *self {
            true
        } else {
            false
        }
    }

    /// Whether the message is the answer to a call that failed.
    pub fn is_error(&self) -> (r: bool)
        ensures
            r == (self@ is Error),
    {
        if let JsonRpc::Error(_) = *self {
            true
        } else {
            false
        }
    }

    /// The message as it stands on the wire.
    pub fn to_json(&self) -> (r: Json)
        ensures
            r@ == wire(self@),
    {
        let mut members: Vec<(String, Json)> = Vec::new();
        members.push((JSONRPC.to_owned(), Json::String(VERSION.to_owned())));
        match self {
            JsonRpc::Request(v) => {
                members.push((METHOD.to_owned(), Json::String(v.method.clone())));
                match &v.params {
                    Some(params) => {
                        members.push((PARAMS.to_owned(), params.to_json()));
                    },
                    None => {},
                }
                members.push((ID.to_owned(), v.id.to_json()));
            },
            JsonRpc::Notification(v) => {
                members.push((METHOD.to_owned(), Json::String(v.method.clone())));
                match &v.params {
                    Some(params) => {
                        members.push((PARAMS.to_owned(), params.to_json()));
                    },
                    None => {},
                }
            },
            JsonRpc::Success(v) => {
                members.push((RESULT.to_owned(), v.result.clone()));
                members.push((ID.to_owned(), v.id.to_json()));
            },
            JsonRpc::Error(v) => {
                members.push((ERROR.to_owned(), v.error.to_json()));
                members.push((ID.to_owned(), v.id.to_json()));
            },
        }
        proof {
            lemma_members_view(members@);
            assert(members_view(members@) =~= wire_members(self@));
            lemma_wire_unique(self@);
        }
        Json::Object(Object::from_unique(members))
    }

    /// The message whose shape an object has, told from the members that
    /// are there; `None` where it has the shape of no message. The version
    /// is not looked at.
    pub fn read_shape(members: &Object) -> (r: Option<JsonRpc>)
        ensures
            match r {
                Some(message) => shape(members@) == Some(message@),
                None => shape(members@) is None,
            },
    {
        let id = members.get(ID);
        match members.get(METHOD) {
            Some(Json::String(method)) => {
                let params = match members.get(PARAMS) {
                    None => None,
                    Some(value) => match Params::from_json(value) {
                        Some(params) => Some(params),
                        None => {
                            return None;
                        },
                    },
                };
                match id {
                    Some(value) => match Id::from_json(value) {
                        Some(id) => Some(
                            JsonRpc::Request(Request { method: method.clone(), params, id }),
                        ),
                        None => None,
                    },
                    None => Some(
                        JsonRpc::Notification(Notification { method: method.clone(), params }),
                    ),
                }
            },
            Some(_) => None,
            None => match members.get(RESULT) {
                Some(result) => match id {
                    Some(value) => match Id::from_json(value) {
                        Some(id) => Some(JsonRpc::Success(Success { result: result.clone(), id })),
                        None => None,
                    },
                    None => None,
                },
                None => match members.get(ERROR) {
                    Some(value) => match RpcError::from_json(value) {
                        Some(error) => match id {
                            Some(value) => match Id::from_json(value) {
                                Some(id) => Some(JsonRpc::Error(Error { error, id })),
                                None => None,
                            },
                            None => None,
                        },
                        None => None,
                    },
                    None => None,
                },
            },
        }
    }

    /// Holds a message to the protocol version: the message is handed back
    /// where the `jsonrpc` member that came with it says `"2.0"`.
    pub fn check_version(version: Option<&Json>, message: JsonRpc) -> (r: Result<
        JsonRpc,
        VersionError,
    >)
        ensures
            outcome_view(r) == versioned(optional_view(version), message@),
    {
        match version {
            Some(Json::String(v)) => {
                let expected = VERSION.to_owned();
                if *v == expected {
                    Ok(message)
                } else {
                    Err(VersionError::InvalidVersionParsed(v.clone()))
                }
            },
            Some(_) => Err(VersionError::MalformedVersion),
            None => Err(VersionError::MissingVersion),
        }
    }

    /// Tells what message a JSON document is. A document that has the shape
    /// of no message is answered with an invalid request error for the null
    /// identifier, which is a message like any other; only a version other
    /// than `"2.0"` is an error.
    pub fn from_json(value: &Json) -> (r: Result<JsonRpc, VersionError>)
        ensures
            outcome_view(r) == classify(value@),
    {
        match value {
            Json::Object(members) => match Self::read_shape(members) {
                Some(message) => Self::check_version(members.get(JSONRPC), message),
                None => Ok(Self::invalid_request_error(())),
            },
            _ => Ok(Self::invalid_request_error(())),
        }
    }

    /// Tells what message the outcome of reading a text is: the message of
    /// the document that was read, or a parse error where none was.
    pub fn parse(val: Option<Json>) -> (r: Result<JsonRpc, VersionError>)
        ensures
            outcome_view(r) == classify_parsed(
                match val {
                    Some(value) => Some(value@),
                    None => None,
                },
            ),
    {
        match val {
            Some(value) => Self::from_json(&value),
            None => Ok(Self::parse_error(())),
        }
    }

    /// Tells what messages the documents of a batch are, each document by
    /// itself and in its place. Without documents, where the text was no
    /// JSON, the answer is a single parse error; an empty batch is answered
    /// with a single invalid request error.
    pub fn parse_vec(vals: Option<Vec<Json>>) -> (r: Vec<Result<JsonRpc, VersionError>>)
        ensures
            outcomes_view(r@) == classify_batch(
                match vals {
                    Some(values) => Batch::Documents(items_view(values@)),
                    None => Batch::Unread,
                },
            ),
            r@.len() == (match vals {
                Some(values) => if values@.len() == 0 {
                    1
                } else {
                    values@.len()
                },
                None => 1,
            }),
    {
        match vals {
            Some(values) => {
                let ghost models = items_view(values@);
                proof {
                    lemma_items_view(values@);
                }
                let mut out: Vec<Result<JsonRpc, VersionError>> = Vec::new();
                if values.len() == 0 {
                    out.push(Ok(Self::invalid_request_error(())));
                    proof {
                        assert(outcomes_view(out@) =~= classify_batch(Batch::Documents(models)));
                    }
                    return out;
                }
                let mut i: usize = 0;
                while i < values.len()
                    invariant
                        i <= values.len(),
                        out.len() == i,
                        models.len() == values.len(),
                        forall|k: int|
                            0 <= k < values.len() ==> #[trigger] models[k] == values@[k]@,
                        forall|k: int|
                            0 <= k < i ==> outcome_view(#[trigger] out@[k]) == classify(
                                models[k],
                            ),
                    decreases values.len() - i,
                {
                    let outcome = Self::from_json(&values[i]);
                    out.push(outcome);
                    i += 1;
                }
                proof {
                    assert(outcomes_view(out@) =~= classify_batch(Batch::Documents(models)));
                }
                out
            },
            None => {
                let mut out: Vec<Result<JsonRpc, VersionError>> = Vec::new();
                out.push(Ok(Self::parse_error(())));
                proof {
                    assert(outcomes_view(out@) =~= classify_batch(Batch::Unread));
                }
                out
            },
        }
    }

    /// Tells what messages the outcome of reading a text is, as a batch.
    /// Where nothing was read the answer is a single parse error. A
    /// document that is no array, and an empty array, are answered with a
    /// single invalid request error. Else there is one outcome for each
    /// document of the array, in its place.
    pub fn parse_batch(val: Option<Json>) -> (r: Vec<Result<JsonRpc, VersionError>>)
        ensures
            outcomes_view(r@) == classify_batch(
                batch_of(
                    match val {
                        Some(value) => Some(value@),
                        None => None,
                    },
                ),
            ),
            r@.len() >= 1,
    {
        match val {
            Some(Json::Array(values)) => Self::parse_vec(Some(values)),
            Some(_) => {
                let mut out: Vec<Result<JsonRpc, VersionError>> = Vec::new();
                out.push(Ok(Self::invalid_request_error(())));
                proof {
                    assert(outcomes_view(out@) =~= classify_batch(Batch::NotArray));
                }
                out
            },
            None => Self::parse_vec(None),
        }
    }

    /// Reads a message from JSON text. Text that is no JSON is answered with
    /// a parse error for the null identifier; what is JSON is told as
    /// [`JsonRpc::from_json`] tells it.
    pub fn from_str(input: &str) -> (r: Result<JsonRpc, VersionError>)
        ensures
            outcome_view(r) == classify_parsed(parsed_text(input@)),
    {
        Self::parse(read_str(input))
    }

    /// Reads a batch of messages from JSON text. Text that is no JSON is
    /// answered with a single parse error. JSON that is no array, and an
    /// empty array, are answered with a single invalid request error. Else
    /// there is one outcome for each document of the array, in its place: a
    /// document that is no message does not disturb the others.
    pub fn from_str_vec(input: &str) -> (r: Vec<Result<JsonRpc, VersionError>>)
        ensures
            outcomes_view(r@) == classify_batch(batch_of(parsed_text(input@))),
            r@.len() >= 1,
    {
        Self::parse_batch(read_str(input))
    }

    /// Reads a message from JSON text held as bytes, as [`JsonRpc::from_str`]
    /// does from text.
    pub fn from_slice(input: &[u8]) -> (r: Result<JsonRpc, VersionError>)
        ensures
            outcome_view(r) == classify_parsed(parsed_bytes(input@)),
    {
        Self::parse(read_slice(input))
    }

    /// Reads a batch of messages from JSON text held as bytes, as
    /// [`JsonRpc::from_str_vec`] does from text.
    pub fn from_slice_vec(input: &[u8]) -> (r: Vec<Result<JsonRpc, VersionError>>)
        ensures
            outcomes_view(r@) == classify_batch(batch_of(parsed_bytes(input@))),
            r@.len() >= 1,
    {
        Self::parse_batch(read_slice(input))
    }
}

impl Clone for JsonRpc {
    fn clone(&self) -> (r: JsonRpc)
        ensures
            r@ == self@,
    {
        match self {
            JsonRpc::Request(v) => JsonRpc::Request(v.clone()),
            JsonRpc::Notification(v) => JsonRpc::Notification(v.clone()),
            JsonRpc::Success(v) => JsonRpc::Success(v.clone()),
            JsonRpc::Error(v) => JsonRpc::Error(v.clone()),
        }
    }
}

impl PartialEq for JsonRpc {
    fn eq(&self, other: &JsonRpc) -> (r: bool) {
        match (self, other) {
            (JsonRpc::Request(a), JsonRpc::Request(b)) => *a == *b,
            (JsonRpc::Notification(a), JsonRpc::Notification(b)) => *a == *b,
            (JsonRpc::Success(a), JsonRpc::Success(b)) => *a == *b,
            (JsonRpc::Error(a), JsonRpc::Error(b)) => *a == *b,
            _ => false,
        }
    }
}

impl PartialEqSpecImpl for JsonRpc {
    open spec fn obeys_eq_spec() -> bool {
        true
    }

    open spec fn eq_spec(&self, other: &JsonRpc) -> bool {
        message_equal(self@, other@)
    }
}

} // verus!
