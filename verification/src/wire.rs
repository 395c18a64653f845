//! The wire form of a message: the JSON object that stands for it.

use vstd::prelude::*;
use crate::error::error_wire;
use crate::id::id_wire;
use crate::json::{keys_unique, JsonValue};
use crate::names::{
    lemma_message_names_differ,
    ERROR,
    ID,
    JSONRPC,
    METHOD,
    PARAMS,
    RESULT,
    VERSION,
};
use crate::params::{params_wire, ParamsValue};
use crate::rpc_methods::Message;

verus! {

/// The member that carries the protocol version.
pub open spec fn version_member() -> (Seq<char>, JsonValue) {
    (JSONRPC@, JsonValue::String(VERSION@))
}

/// The members that carry the parameters of a call: one `params` member, or none.
pub open spec fn params_members(params: Option<ParamsValue>) -> Seq<(Seq<char>, JsonValue)> {
    match params {
        Some(params) => seq![(PARAMS@, params_wire(params))],
        None => seq![],
    }
}

/// The members of a message on the wire, in the order in which they are written.
pub open spec fn wire_members(message: Message) -> Seq<(Seq<char>, JsonValue)> {
    match message {
        Message::Request { method, params, id } => seq![
            version_member(),
            (METHOD@, JsonValue::String(method)),
        ] + params_members(params) + seq![(ID@, id_wire(id))],
        Message::Notification { method, params } => seq![
            version_member(),
            (METHOD@, JsonValue::String(method)),
        ] + params_members(params),
        Message::Success { result, id } => seq![
            version_member(),
            (RESULT@, result),
            (ID@, id_wire(id)),
        ],
        Message::Error { error, id } => seq![
            version_member(),
            (ERROR@, error_wire(error)),
            (ID@, id_wire(id)),
        ],
    }
}

/// The JSON object that stands for a message on the wire.
pub open spec fn wire(message: Message) -> JsonValue {
    JsonValue::Object(wire_members(message))
}

/// No two members of the wire form of a message have the same name.
pub proof fn lemma_wire_unique(message: Message)
    ensures
        keys_unique(wire_members(message)),
{
    lemma_message_names_differ();
    let members = wire_members(message);
    assert(members[0].0 == JSONRPC@);
    match message {
        Message::Request { method, params, id } => {
            assert(members[1].0 == METHOD@);
            if params is Some {
                assert(members[2].0 == PARAMS@);
                assert(members[3].0 == ID@);
            } else {
                assert(members[2].0 == ID@);
            }
        },
        Message::Notification { method, params } => {
            assert(members[1].0 == METHOD@);
            if params is Some {
                assert(members[2].0 == PARAMS@);
            }
        },
        Message::Success { result, id } => {
            assert(members[1].0 == RESULT@);
            assert(members[2].0 == ID@);
        },
        Message::Error { error, id } => {
            assert(members[1].0 == ERROR@);
            assert(members[2].0 == ID@);
        },
    }
}

} // verus!
