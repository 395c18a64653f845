//! The protocol version, and what can be wrong with it.

use vstd::prelude::*;
use vstd::std_specs::cmp::PartialEqSpecImpl;
use crate::json::JsonValue;
use crate::names::VERSION;
use crate::rpc_methods::Message;

verus! {

/// Why a document that has the shape of a message is no message of this
/// protocol version.
#[derive(Debug)]
pub enum VersionError {
    /// The document has no `jsonrpc` member.
    MissingVersion,
    /// The `jsonrpc` member is no string.
    MalformedVersion,
    /// The `jsonrpc` member holds this string, which is not `"2.0"`.
    InvalidVersionParsed(String),
}

/// The model of a [`VersionError`].
pub enum VersionFault {
    MissingVersion,
    MalformedVersion,
    InvalidVersionParsed(Seq<char>),
}

impl View for VersionError {
    type V = VersionFault;

    open spec fn view(&self) -> VersionFault {
        match self {
            VersionError::MissingVersion => VersionFault::MissingVersion,
            VersionError::MalformedVersion => VersionFault::MalformedVersion,
            VersionError::InvalidVersionParsed(v) => VersionFault::InvalidVersionParsed(v@),
        }
    }
}

impl Clone for VersionError {
    fn clone(&self) -> (r: VersionError)
        ensures
            r == *self,
    {
        match self {
            VersionError::MissingVersion => VersionError::MissingVersion,
            VersionError::MalformedVersion => VersionError::MalformedVersion,
            VersionError::InvalidVersionParsed(v) => VersionError::InvalidVersionParsed(v.clone()),
        }
    }
}

impl PartialEq for VersionError {
    fn eq(&self, other: &VersionError) -> (r: bool) {
        match (self, other) {
            (VersionError::MissingVersion, VersionError::MissingVersion) => true,
            (VersionError::MalformedVersion, VersionError::MalformedVersion) => true,
            (VersionError::InvalidVersionParsed(a), VersionError::InvalidVersionParsed(b)) => *a
                == *b,
            _ => false,
        }
    }
}

impl PartialEqSpecImpl for VersionError {
    open spec fn obeys_eq_spec() -> bool {
        true
    }

    open spec fn eq_spec(&self, other: &VersionError) -> bool {
        self@ == other@
    }
}

/// The outcome for a message read from an object whose `jsonrpc` member is
/// `version`: the message where the version is the string `"2.0"`, and else
/// what is wrong with the version.
pub open spec fn versioned(version: Option<JsonValue>, message: Message) -> Result<
    Message,
    VersionFault,
> {
    match version {
        Some(JsonValue::String(v)) => if v == VERSION@ {
            Ok(message)
        } else {
            Err(VersionFault::InvalidVersionParsed(v))
        },
        Some(_) => Err(VersionFault::MalformedVersion),
        None => Err(VersionFault::MissingVersion),
    }
}

} // verus!
