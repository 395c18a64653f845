//! Error objects and the codes that the protocol reserves.

use vstd::prelude::*;
use vstd::std_specs::cmp::PartialEqSpecImpl;
use crate::json::{
    json_equal,
    keys_unique,
    lemma_lookup_found,
    lemma_lookup_missing,
    lemma_members_view,
    lookup,
    members_view,
    Json,
    JsonValue,
    Object,
};
use crate::names::{lemma_error_names_differ, CODE, DATA, MESSAGE};
use crate::number::{number_as_int, number_of_int, Number};
use crate::text::{printed_text, write_string};

verus! {

/// The code of a parse error.
pub const PARSE_ERROR: i64 = -32700;

/// The code of an invalid request.
pub const INVALID_REQUEST: i64 = -32600;

/// The code of a method that was not found.
pub const METHOD_NOT_FOUND: i64 = -32601;

/// The code of invalid parameters.
pub const INVALID_PARAMS: i64 = -32602;

/// The code of an internal error.
pub const INTERNAL_ERROR: i64 = -32603;

/// The error conditions that the protocol defines.
#[derive(Clone, Copy, Debug, PartialEq, Eq, Structural)]
pub enum ErrorCode {
    /// The text received was not JSON.
    ParseError,
    /// The JSON received is not a message.
    InvalidRequest,
    /// The method does not exist or is not available.
    MethodNotFound,
    /// The parameters do not fit the method.
    InvalidParams,
    /// An error inside the server.
    InternalError,
    /// An error that the server defines, with its code; by convention from -32099 to -32000.
    ServerError(i64),
}

impl ErrorCode {
    /// The number of the condition.
    pub open spec fn number(self) -> i64 {
        match self {
            ErrorCode::ParseError => PARSE_ERROR,
            ErrorCode::InvalidRequest => INVALID_REQUEST,
            ErrorCode::MethodNotFound => METHOD_NOT_FOUND,
            ErrorCode::InvalidParams => INVALID_PARAMS,
            ErrorCode::InternalError => INTERNAL_ERROR,
            ErrorCode::ServerError(code) => code,
        }
    }

    /// The fixed message of the condition.
    pub open spec fn message(self) -> Seq<char> {
        match self {
            ErrorCode::ParseError => "Parse error"@,
            ErrorCode::InvalidRequest => "Invalid request"@,
            ErrorCode::MethodNotFound => "Method not found"@,
            ErrorCode::InvalidParams => "Invalid params"@,
            ErrorCode::InternalError => "Internal error"@,
            ErrorCode::ServerError(_) => "Server error"@,
        }
    }

    /// The number of the condition.
    pub fn code(&self) -> (r: i64)
        ensures
            r == self.number(),
    {
        match *self {
            ErrorCode::ParseError => PARSE_ERROR,
            ErrorCode::InvalidRequest => INVALID_REQUEST,
            ErrorCode::MethodNotFound => METHOD_NOT_FOUND,
            ErrorCode::InvalidParams => INVALID_PARAMS,
            ErrorCode::InternalError => INTERNAL_ERROR,
            ErrorCode::ServerError(code) => code,
        }
    }

    /// The fixed message of the condition.
    pub fn as_str(&self) -> (r: &'static str)
        ensures
            r@ == self.message(),
    {
        match *self {
            ErrorCode::ParseError => "Parse error",
            ErrorCode::InvalidRequest => "Invalid request",
            ErrorCode::MethodNotFound => "Method not found",
            ErrorCode::InvalidParams => "Invalid params",
            ErrorCode::InternalError => "Internal error",
            ErrorCode::ServerError(_) => "Server error",
        }
    }
}

/// An error object: what went wrong, as a code and a message, with optional data.
#[derive(Debug)]
pub struct Error {
    /// The number of the condition.
    pub code: i64,
    /// A short description.
    pub message: String,
    /// More about the error, where there is more to say.
    pub data: Option<Json>,
}

/// The model of an [`Error`].
pub struct ErrorValue {
    pub code: i64,
    pub message: Seq<char>,
    pub data: Option<JsonValue>,
}

/// The model of data that may be missing.
pub open spec fn data_view(data: Option<Json>) -> Option<JsonValue> {
    match data {
        Some(data) => Some(data@),
        None => None,
    }
}

impl View for Error {
    type V = ErrorValue;

    open spec fn view(&self) -> ErrorValue {
        ErrorValue { code: self.code, message: self.message@, data: data_view(self.data) }
    }
}

/// What can be given where the data of an error are asked for: a document,
/// or an optional document, where `None` stands for no data.
pub trait IntoData: Sized {
    /// The data that the value stands for.
    spec fn data_value(self) -> Option<JsonValue>;

    /// The data that the value stands for.
    fn into_data(self) -> (data: Option<Json>)
        ensures
            data_view(data) == self.data_value(),
    ;
}

impl IntoData for Json {
    open spec fn data_value(self) -> Option<JsonValue> {
        Some(self@)
    }

    fn into_data(self) -> (data: Option<Json>) {
        Some(self)
    }
}

impl IntoData for Option<Json> {
    open spec fn data_value(self) -> Option<JsonValue> {
        data_view(self)
    }

    fn into_data(self) -> (data: Option<Json>) {
        self
    }
}

/// The error object of a condition: its number, its fixed message, no data.
pub open spec fn error_of(code: ErrorCode) -> ErrorValue {
    ErrorValue { code: code.number(), message: code.message(), data: None }
}

/// The members that carry the data of an error: one `data` member, or none.
pub open spec fn data_members(data: Option<JsonValue>) -> Seq<(Seq<char>, JsonValue)> {
    match data {
        Some(value) => seq![(DATA@, value)],
        None => seq![],
    }
}

/// The JSON object that stands for an error on the wire: `code`, `message`,
/// and `data` only where there is data.
pub open spec fn error_wire(error: ErrorValue) -> JsonValue {
    JsonValue::Object(
        seq![
            (CODE@, JsonValue::Number(number_of_int(error.code))),
            (MESSAGE@, JsonValue::String(error.message)),
        ] + data_members(error.data),
    )
}

/// The error that a JSON value stands for: an object whose `code` is an
/// integer within `i64` and whose `message` is a string. A `data` member is
/// taken as it is; without one the error has no data. Any other value is no
/// error object.
pub open spec fn error_read(value: JsonValue) -> Option<ErrorValue> {
    match value {
        JsonValue::Object(members) => match (lookup(members, CODE@), lookup(members, MESSAGE@)) {
            (Some(JsonValue::Number(n)), Some(JsonValue::String(message))) => match number_as_int(
                n,
            ) {
                Some(code) => Some(ErrorValue { code, message, data: lookup(members, DATA@) }),
                None => None,
            },
            _ => None,
        },
        _ => None,
    }
}

/// Whether two errors say the same: the same code and message, and data that
/// say the same or no data on either side.
pub open spec fn error_equal(a: ErrorValue, b: ErrorValue) -> bool {
    &&& a.code == b.code
    &&& a.message == b.message
    &&& match (a.data, b.data) {
        (Some(x), Some(y)) => json_equal(x, y),
        (None, None) => true,
        _ => false,
    }
}

/// Every error is read back from its wire form unchanged: an error without
/// data comes back without data, and data come back as they were.
pub proof fn lemma_error_round_trip(error: ErrorValue)
    ensures
        error_read(error_wire(error)) == Some(error),
{
    lemma_error_names_differ();
    let members = error_wire(error)->Object_0;
    assert(members[0] == (CODE@, JsonValue::Number(number_of_int(error.code))));
    assert(members[1] == (MESSAGE@, JsonValue::String(error.message)));
    lemma_lookup_found(members, CODE@, 0);
    lemma_lookup_found(members, MESSAGE@, 1);
    match error.data {
        Some(data) => {
            assert(members[2] == (DATA@, data));
            lemma_lookup_found(members, DATA@, 2);
        },
        None => {
            lemma_lookup_missing(members, DATA@);
        },
    }
}

/// No two members of the wire form of an error have the same name.
pub proof fn lemma_error_wire_unique(error: ErrorValue)
    ensures
        keys_unique(error_wire(error)->Object_0),
{
    lemma_error_names_differ();
    let members = error_wire(error)->Object_0;
    assert(members[0].0 == CODE@);
    assert(members[1].0 == MESSAGE@);
    if error.data is Some {
        assert(members[2].0 == DATA@);
    }
}

/// On the wire an error has a `data` member exactly when it has data.
pub proof fn lemma_error_data_presence(error: ErrorValue)
    ensures
        error_wire(error).get(DATA@) is Some <==> error.data is Some,
        error_wire(error).get(DATA@) == error.data,
{
    lemma_error_round_trip(error);
}

impl Error {
    /// The error object of a condition that the protocol defines.
    pub fn new(code: ErrorCode) -> (r: Error)
        ensures
            r@ == error_of(code),
    {
        Error { code: code.code(), message: code.as_str().to_owned(), data: None }
    }

    /// Parse error, -32700.
    pub fn parse_error() -> (r: Error)
        ensures
            r@ == error_of(ErrorCode::ParseError),
    {
        Self::new(ErrorCode::ParseError)
    }

    /// Invalid request, -32600.
    pub fn invalid_request() -> (r: Error)
        ensures
            r@ == error_of(ErrorCode::InvalidRequest),
    {
        Self::new(ErrorCode::InvalidRequest)
    }

    /// Method not found, -32601.
    pub fn method_not_found() -> (r: Error)
        ensures
            r@ == error_of(ErrorCode::MethodNotFound),
    {
        Self::new(ErrorCode::MethodNotFound)
    }

    /// Invalid params, -32602.
    pub fn invalid_params() -> (r: Error)
        ensures
            r@ == error_of(ErrorCode::InvalidParams),
    {
        Self::new(ErrorCode::InvalidParams)
    }

    /// Internal error, -32603.
    pub fn internal_error() -> (r: Error)
        ensures
            r@ == error_of(ErrorCode::InternalError),
    {
        Self::new(ErrorCode::InternalError)
    }

    /// Server error, with the code that the server gives it.
    pub fn server_error(code: i64) -> (r: Error)
        ensures
            r@ == error_of(ErrorCode::ServerError(code)),
    {
        Self::new(ErrorCode::ServerError(code))
    }

    /// An error of the application's own, with its code and message.
    pub fn custom(code: i64, msg: String) -> (r: Error)
        ensures
            r@ == (ErrorValue { code, message: msg@, data: None }),
    {
        Error { code, message: msg, data: None }
    }

    /// The same error with `data` as its data, in place of any it had;
    /// with `None`, the same error without data.
    pub fn with_data<D: IntoData>(self, data: D) -> (r: Error)
        ensures
            r@ == (ErrorValue {
                code: self@.code,
                message: self@.message,
                data: data.data_value(),
            }),
    {
        Error { code: self.code, message: self.message, data: data.into_data() }
    }

    /// The number of the condition.
    pub fn code(&self) -> (r: i64)
        ensures
            r == self@.code,
    {
        self.code
    }

    /// A copy of the message.
    pub fn message(&self) -> (r: String)
        ensures
            r@ == self@.message,
    {
        self.message.clone()
    }

    /// The data, where the error has any.
    pub fn data(&self) -> (r: Option<&Json>)
        ensures
            match r {
                Some(data) => self@.data == Some(data@),
                None => self@.data is None,
            },
    {
        self.data.as_ref()
    }

    /// The error as it stands on the wire.
    pub fn to_json(&self) -> (r: Json)
        ensures
            r@ == error_wire(self@),
    {
        let mut members: Vec<(String, Json)> = Vec::new();
        members.push((CODE.to_owned(), Json::Number(Number::from_i64(self.code))));
        members.push((MESSAGE.to_owned(), Json::String(self.message.clone())));
        match &self.data {
            Some(data) => {
                members.push((DATA.to_owned(), data.clone()));
            },
            None => {},
        }
        proof {
            lemma_members_view(members@);
            assert(members_view(members@) =~= error_wire(self@)->Object_0);
            lemma_error_wire_unique(self@);
        }
        Json::Object(Object::from_unique(members))
    }

    /// Reads an error object; `None` where the value is not one.
    pub fn from_json(value: &Json) -> (r: Option<Error>)
        ensures
            match r {
                Some(error) => error_read(value@) == Some(error@),
                None => error_read(value@) is None,
            },
    {
        match value {
            Json::Object(members) => {
                match (members.get(CODE), members.get(MESSAGE)) {
                    (Some(Json::Number(n)), Some(Json::String(message))) => match n.as_i64() {
                        Some(code) => {
                            let data = match members.get(DATA) {
                                Some(data) => Some(data.clone()),
                                None => None,
                            };
                            Some(Error { code, message: message.clone(), data })
                        },
                        None => None,
                    },
                    _ => None,
                }
            },
            _ => None,
        }
    }

    /// The error as JSON text. Where the text cannot be written, the message alone.
    pub fn to_string(&self) -> (r: String)
        ensures
            r@ == (match printed_text(error_wire(self@)) {
                Some(text) => text,
                None => self@.message,
            }),
    {
        match write_string(&self.to_json()) {
            Some(text) => text,
            None => self.message.clone(),
        }
    }
}

impl Clone for Error {
    fn clone(&self) -> (r: Error)
        ensures
            r@ == self@,
    {
        Error {
            code: self.code,
            message: self.message.clone(),
            data: match &self.data {
                Some(data) => Some(data.clone()),
                None => None,
            },
        }
    }
}

impl PartialEq for Error {
    fn eq(&self, other: &Error) -> (r: bool) {
        self.code == other.code && self.message == other.message && match (
            &self.data,
            &other.data,
        ) {
            (Some(x), Some(y)) => x.equals(y),
            (None, None) => true,
            _ => false,
        }
    }
}

impl PartialEqSpecImpl for Error {
    open spec fn obeys_eq_spec() -> bool {
        true
    }

    open spec fn eq_spec(&self, other: &Error) -> bool {
        error_equal(self@, other@)
    }
}

} // verus!
