//! What a JSON document is, as a message.
//!
//! A message on the wire carries no tag that says what it is. Its kind is
//! told from the members that are there, in this order: a `method` makes it
//! a call, which is a request with an `id` and a notification without one;
//! otherwise a `result` makes it a success, and otherwise an `error` makes it
//! an error. Members that the kind does not use are ignored, so an object
//! that holds both `result` and `error` is a success. Only a document that
//! has the shape of a message is held to the protocol version.

use vstd::prelude::*;
use crate::error::{error_of, error_read, ErrorCode};
use crate::id::{id_read, IdValue};
use crate::json::{lookup, JsonValue};
use crate::names::{ERROR, ID, JSONRPC, METHOD, PARAMS, RESULT};
use crate::params::{params_read, ParamsValue};
use crate::rpc_methods::Message;
use crate::version::{versioned, VersionFault};

verus! {

/// The error answer that reports `code` for the call `id`.
pub open spec fn failure(id: IdValue, code: ErrorCode) -> Message {
    Message::Error { error: error_of(code), id }
}

/// What the `params` member of an object says: `Some(None)` where there is
/// none, `Some(Some(..))` where it holds parameters, `None` where it holds a
/// value of the wrong type.
pub open spec fn read_params(members: Seq<(Seq<char>, JsonValue)>) -> Option<Option<ParamsValue>> {
    match lookup(members, PARAMS@) {
        None => Some(None),
        Some(value) => match params_read(value) {
            Some(params) => Some(Some(params)),
            None => None,
        },
    }
}

/// The identifier that the `id` member of an object holds; `None` where
/// there is no such member or it holds a value of the wrong type.
pub open spec fn read_id(members: Seq<(Seq<char>, JsonValue)>) -> Option<IdValue> {
    match lookup(members, ID@) {
        Some(value) => id_read(value),
        None => None,
    }
}

/// The message whose shape an object has, told from the members that are
/// there. `None` where the object has the shape of no message: it names
/// neither a method, a result nor an error, or a member that its kind needs
/// is missing or holds a value of the wrong type. The `jsonrpc` member plays
/// no part in this.
pub open spec fn shape(members: Seq<(Seq<char>, JsonValue)>) -> Option<Message> {
    if lookup(members, METHOD@) is Some {
        match (lookup(members, METHOD@), read_params(members)) {
            (Some(JsonValue::String(method)), Some(params)) => {
                if lookup(members, ID@) is Some {
                    match read_id(members) {
                        Some(id) => Some(Message::Request { method, params, id }),
                        None => None,
                    }
                } else {
                    Some(Message::Notification { method, params })
                }
            },
            _ => None,
        }
    } else if lookup(members, RESULT@) is Some {
        match read_id(members) {
            Some(id) => Some(Message::Success { result: lookup(members, RESULT@)->0, id }),
            None => None,
        }
    } else if lookup(members, ERROR@) is Some {
        match (error_read(lookup(members, ERROR@)->0), read_id(members)) {
            (Some(error), Some(id)) => Some(Message::Error { error, id }),
            _ => None,
        }
    } else {
        None
    }
}

/// What a JSON document is, as a message. A document that is no object, or
/// an object with the shape of no message, is answered with an invalid
/// request error for the null identifier. A document with the shape of a
/// message is that message if its version is `"2.0"`, and a version error
/// if not.
pub open spec fn classify(value: JsonValue) -> Result<Message, VersionFault> {
    match value {
        JsonValue::Object(members) => match shape(members) {
            Some(message) => versioned(lookup(members, JSONRPC@), message),
            None => Ok(failure(IdValue::Null, ErrorCode::InvalidRequest)),
        },
        _ => Ok(failure(IdValue::Null, ErrorCode::InvalidRequest)),
    }
}

/// What the outcome of reading a text is, as a message: text that is no JSON
/// is answered with a parse error for the null identifier.
pub open spec fn classify_parsed(parsed: Option<JsonValue>) -> Result<Message, VersionFault> {
    match parsed {
        Some(value) => classify(value),
        None => Ok(failure(IdValue::Null, ErrorCode::ParseError)),
    }
}

/// What was read where a batch was asked for.
pub enum Batch {
    /// Nothing: the text was no JSON.
    Unread,
    /// A document that is no array.
    NotArray,
    /// An array of these documents.
    Documents(Seq<JsonValue>),
}

/// What a document that was read is, as a batch.
pub open spec fn batch_of(parsed: Option<JsonValue>) -> Batch {
    match parsed {
        None => Batch::Unread,
        Some(JsonValue::Array(values)) => Batch::Documents(values),
        Some(_) => Batch::NotArray,
    }
}

/// What a batch is, as messages. Text that is no JSON is answered with a
/// single parse error. A document that is no array, and an array that is
/// empty, are answered with a single invalid request error. Any other batch
/// gives one outcome for each of its documents, in their order, each told
/// by [`classify`] alone.
pub open spec fn classify_batch(batch: Batch) -> Seq<Result<Message, VersionFault>> {
    match batch {
        Batch::Unread => seq![Ok(failure(IdValue::Null, ErrorCode::ParseError))],
        Batch::NotArray => seq![Ok(failure(IdValue::Null, ErrorCode::InvalidRequest))],
        Batch::Documents(values) => if values.len() == 0 {
            seq![Ok(failure(IdValue::Null, ErrorCode::InvalidRequest))]
        } else {
            Seq::new(values.len(), |i: int| classify(values[i]))
        },
    }
}

} // verus!
