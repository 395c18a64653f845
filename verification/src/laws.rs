//! What holds of every message: of its wire form, and of reading it back.

use vstd::prelude::*;
use crate::error::{error_wire, lemma_error_round_trip};
use crate::id::{id_wire, lemma_id_round_trip};
use crate::json::{lemma_lookup_found, lemma_lookup_missing, lookup, JsonValue};
use crate::names::{lemma_message_names_differ, ERROR, ID, JSONRPC, METHOD, PARAMS, RESULT, VERSION};
use crate::params::{lemma_params_round_trip, params_wire};
use crate::rpc_methods::Message;
use crate::classify::{batch_of, classify, classify_batch, failure, shape, Batch};
use crate::error::ErrorCode;
use crate::id::IdValue;
use crate::version::VersionFault;
use crate::wire::{wire, wire_members};

verus! {

/// The wire form of a message holds the members of its kind and no others of
/// the protocol: always the version; `method` for a call; `params` only for
/// a call that has parameters; `id` for every kind but a notification;
/// `result` for a success; `error` for an error.
pub proof fn lemma_wire_members(message: Message)
    ensures
        wire(message).get(JSONRPC@) == Some(JsonValue::String(VERSION@)),
        wire(message).get(METHOD@) == (match message.method() {
            Some(method) => Some(JsonValue::String(method)),
            None => None,
        }),
        wire(message).get(PARAMS@) == (match message.params() {
            Some(params) => Some(params_wire(params)),
            None => None,
        }),
        wire(message).get(ID@) == (match message.id() {
            Some(id) => Some(id_wire(id)),
            None => None,
        }),
        wire(message).get(RESULT@) == message.result(),
        wire(message).get(ERROR@) == (match message.error() {
            Some(error) => Some(error_wire(error)),
            None => None,
        }),
{
    lemma_message_names_differ();
    let members = wire_members(message);
    lemma_lookup_found(members, JSONRPC@, 0);
    match message {
        Message::Request { method, params, id } => {
            lemma_lookup_found(members, METHOD@, 1);
            match params {
                Some(p) => {
                    assert(members[2] == (PARAMS@, params_wire(p)));
                    assert(members[3] == (ID@, id_wire(id)));
                    lemma_lookup_found(members, PARAMS@, 2);
                    lemma_lookup_found(members, ID@, 3);
                },
                None => {
                    assert(members[2] == (ID@, id_wire(id)));
                    lemma_lookup_missing(members, PARAMS@);
                    lemma_lookup_found(members, ID@, 2);
                },
            }
            lemma_lookup_missing(members, RESULT@);
            lemma_lookup_missing(members, ERROR@);
        },
        Message::Notification { method, params } => {
            lemma_lookup_found(members, METHOD@, 1);
            match params {
                Some(p) => {
                    assert(members[2] == (PARAMS@, params_wire(p)));
                    lemma_lookup_found(members, PARAMS@, 2);
                },
                None => {
                    lemma_lookup_missing(members, PARAMS@);
                },
            }
            lemma_lookup_missing(members, ID@);
            lemma_lookup_missing(members, RESULT@);
            lemma_lookup_missing(members, ERROR@);
        },
        Message::Success { result, id } => {
            lemma_lookup_found(members, RESULT@, 1);
            lemma_lookup_found(members, ID@, 2);
            lemma_lookup_missing(members, METHOD@);
            lemma_lookup_missing(members, PARAMS@);
            lemma_lookup_missing(members, ERROR@);
        },
        Message::Error { error, id } => {
            lemma_lookup_found(members, ERROR@, 1);
            lemma_lookup_found(members, ID@, 2);
            lemma_lookup_missing(members, METHOD@);
            lemma_lookup_missing(members, PARAMS@);
            lemma_lookup_missing(members, RESULT@);
        },
    }
}

/// Reading the wire form of any message gives that message back: the same
/// kind, with its method, parameters, result, error and identifier as they
/// were, down to the order of the members of every object in them.
pub proof fn lemma_classify_wire(message: Message)
    ensures
        classify(wire(message)) == Ok::<Message, VersionFault>(message),
{
    lemma_wire_members(message);
    match message {
        Message::Request { method, params, id } => {
            lemma_id_round_trip(id);
            if let Some(p) = params {
                lemma_params_round_trip(p);
            }
        },
        Message::Notification { method, params } => {
            if let Some(p) = params {
                lemma_params_round_trip(p);
            }
        },
        Message::Success { result, id } => {
            lemma_id_round_trip(id);
        },
        Message::Error { error, id } => {
            lemma_id_round_trip(id);
            lemma_error_round_trip(error);
        },
    }
}

/// Reading the wire form of a message recovers its identifier, whatever the
/// identifier is: any number, any string, or null.
pub proof fn lemma_classify_recovers_id(message: Message)
    ensures
        classify(wire(message)) matches Ok(read) && read.id() == message.id(),
{
    lemma_classify_wire(message);
}

/// Whether an object has a member of that name.
pub open spec fn present(members: Seq<(Seq<char>, JsonValue)>, key: Seq<char>) -> bool {
    lookup(members, key) is Some
}

/// The kind of a message is told by the members that are there, and by
/// nothing else: by whether there is a `method`, an `id`, a `result`, an
/// `error`.
pub proof fn lemma_kind_follows_members(members: Seq<(Seq<char>, JsonValue)>)
    requires
        shape(members) is Some,
    ensures
        shape(members)->0 is Request <==> present(members, METHOD@) && present(members, ID@),
        shape(members)->0 is Notification <==> present(members, METHOD@) && !present(
            members,
            ID@,
        ),
        shape(members)->0 is Success <==> !present(members, METHOD@) && present(
            members,
            RESULT@,
        ),
        shape(members)->0 is Error <==> !present(members, METHOD@) && !present(
            members,
            RESULT@,
        ) && present(members, ERROR@),
        shape(members)->0.id() is Some <==> present(members, ID@),
{
}

/// A document is told to be the message whose shape it has, or answered
/// with an invalid request error for the null identifier, or refused for
/// its version: nothing else comes of it.
pub proof fn lemma_classify_outcomes(value: JsonValue)
    ensures
        match classify(value) {
            Ok(message) => message == failure(IdValue::Null, ErrorCode::InvalidRequest) || (
            value is Object && shape(value->Object_0) == Some(message)),
            Err(_) => value is Object && shape(value->Object_0) is Some,
        },
{
}

/// In a batch that is not empty every document is told by itself: there is
/// one outcome for each document, in its place, and it is what [`classify`]
/// says of that document alone.
pub proof fn lemma_batch_is_elementwise(values: Seq<JsonValue>)
    requires
        values.len() > 0,
    ensures
        classify_batch(Batch::Documents(values)).len() == values.len(),
        forall|i: int|
            #![trigger values[i]]
            0 <= i < values.len() ==> classify_batch(Batch::Documents(values))[i] == classify(
                values[i],
            ),
{
}

/// Text that is no JSON and JSON that is no array are answered apart: the
/// one with a single parse error, the other with a single invalid request
/// error.
pub proof fn lemma_batch_tells_unread_from_no_array(value: JsonValue)
    ensures
        !(value is Array) ==> classify_batch(batch_of(Some(value))) == seq![
            Ok::<Message, VersionFault>(failure(IdValue::Null, ErrorCode::InvalidRequest)),
        ],
        classify_batch(batch_of(None)) == seq![
            Ok::<Message, VersionFault>(failure(IdValue::Null, ErrorCode::ParseError)),
        ],
{
}

} // verus!
