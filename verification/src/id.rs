//! Message identifiers.

use vstd::prelude::*;
use vstd::std_specs::cmp::PartialEqSpecImpl;
use vstd::std_specs::convert::FromSpecImpl;
use crate::json::{Json, JsonValue};
use crate::number::{number_as_int, number_of_int, Number};

verus! {

/// The identifier that a client gives a call, and that the answer repeats:
/// a number, a string, or null.
#[derive(Debug, Hash)]
pub enum Id {
    /// A numeric identifier.
    Num(i64),
    /// A string identifier.
    Str(String),
    /// The null identifier, JSON `null`.
    Null,
}

/// The model of an [`Id`].
pub enum IdValue {
    Num(i64),
    Str(Seq<char>),
    Null,
}

impl View for Id {
    type V = IdValue;

    open spec fn view(&self) -> IdValue {
        match self {
            Id::Num(n) => IdValue::Num(*n),
            Id::Str(s) => IdValue::Str(s@),
            Id::Null => IdValue::Null,
        }
    }
}

/// The JSON value that stands for an identifier on the wire.
pub open spec fn id_wire(id: IdValue) -> JsonValue {
    match id {
        IdValue::Num(n) => JsonValue::Number(number_of_int(n)),
        IdValue::Str(s) => JsonValue::String(s),
        IdValue::Null => JsonValue::Null,
    }
}

/// The identifier that a JSON value stands for: an integer within `i64`, a
/// string or `null`. Any other value is no identifier.
pub open spec fn id_read(value: JsonValue) -> Option<IdValue> {
    match value {
        JsonValue::Null => Some(IdValue::Null),
        JsonValue::String(s) => Some(IdValue::Str(s)),
        JsonValue::Number(n) => match number_as_int(n) {
            Some(i) => Some(IdValue::Num(i)),
            None => None,
        },
        _ => None,
    }
}

/// Every identifier is read back from its wire form unchanged.
pub proof fn lemma_id_round_trip(id: IdValue)
    ensures
        id_read(id_wire(id)) == Some(id),
{
}

impl Id {
    /// The number, where the identifier is one.
    pub fn as_num(&self) -> (r: Option<i64>)
        ensures
            r == (match self@ {
                IdValue::Num(n) => Some(n),
                _ => None,
            }),
    {
        if let Id::Num(v) = *self {
            Some(v)
        } else {
            None
        }
    }

    /// The string, where the identifier is one.
    pub fn as_str(&self) -> (r: Option<String>)
        ensures
            match r {
                Some(s) => self@ == IdValue::Str(s@),
                None => !(self@ is Str),
            },
    {
        if let Id::Str(ref v) = *self {
            Some(v.clone())
        } else {
            None
        }
    }

    /// The identifier as it stands on the wire.
    pub fn to_json(&self) -> (r: Json)
        ensures
            r@ == id_wire(self@),
    {
        match self {
            Id::Num(n) => Json::Number(Number::from_i64(*n)),
            Id::Str(s) => Json::String(s.clone()),
            Id::Null => Json::Null,
        }
    }

    /// Reads an identifier from a JSON value; `None` where the value has the wrong type.
    pub fn from_json(value: &Json) -> (r: Option<Id>)
        ensures
            match r {
                Some(id) => id_read(value@) == Some(id@),
                None => id_read(value@) is None,
            },
    {
        match value {
            Json::Null => Some(Id::Null),
            Json::String(s) => Some(Id::Str(s.clone())),
            Json::Number(n) => match n.as_i64() {
                Some(i) => Some(Id::Num(i)),
                None => None,
            },
            _ => None,
        }
    }
}

/// What can be given where an identifier is asked for: an identifier, a
/// number, a string, or `()` for null.
pub trait IntoId: Sized {
    /// The identifier that the value stands for.
    spec fn id_value(self) -> IdValue;

    /// The identifier that the value stands for.
    fn into_id(self) -> (id: Id)
        ensures
            id@ == self.id_value(),
    ;
}

impl IntoId for Id {
    open spec fn id_value(self) -> IdValue {
        self@
    }

    fn into_id(self) -> (id: Id) {
        self
    }
}

impl IntoId for i64 {
    open spec fn id_value(self) -> IdValue {
        IdValue::Num(self)
    }

    fn into_id(self) -> (id: Id) {
        Id::Num(self)
    }
}

impl IntoId for String {
    open spec fn id_value(self) -> IdValue {
        IdValue::Str(self@)
    }

    fn into_id(self) -> (id: Id) {
        Id::Str(self)
    }
}

impl<'a> IntoId for &'a str {
    open spec fn id_value(self) -> IdValue {
        IdValue::Str(self@)
    }

    fn into_id(self) -> (id: Id) {
        Id::Str(self.to_owned())
    }
}

impl IntoId for () {
    open spec fn id_value(self) -> IdValue {
        IdValue::Null
    }

    fn into_id(self) -> (id: Id) {
        Id::Null
    }
}

impl Clone for Id {
    fn clone(&self) -> (r: Id)
        ensures
            r == *self,
    {
        match self {
            Id::Num(n) => Id::Num(*n),
            Id::Str(s) => Id::Str(s.clone()),
            Id::Null => Id::Null,
        }
    }
}

impl PartialEq for Id {
    fn eq(&self, other: &Id) -> (r: bool) {
        match (self, other) {
            (Id::Num(a), Id::Num(b)) => *a == *b,
            (Id::Str(a), Id::Str(b)) => *a == *b,
            (Id::Null, Id::Null) => true,
            _ => false,
        }
    }
}

impl PartialEqSpecImpl for Id {
    open spec fn obeys_eq_spec() -> bool {
        true
    }

    open spec fn eq_spec(&self, other: &Id) -> bool {
        self@ == other@
    }
}

impl Eq for Id {

}

impl From<i64> for Id {
    fn from(val: i64) -> (r: Id) {
        Id::Num(val)
    }
}

impl FromSpecImpl<i64> for Id {
    open spec fn obeys_from_spec() -> bool {
        true
    }

    open spec fn from_spec(val: i64) -> Id {
        Id::Num(val)
    }
}

impl From<String> for Id {
    fn from(val: String) -> (r: Id) {
        Id::Str(val)
    }
}

impl FromSpecImpl<String> for Id {
    open spec fn obeys_from_spec() -> bool {
        true
    }

    open spec fn from_spec(val: String) -> Id {
        Id::Str(val)
    }
}

impl<'a> From<&'a str> for Id {
    fn from(val: &'a str) -> (r: Id)
        ensures
            r@ == IdValue::Str(val@),
    {
        val.into_id()
    }
}

/// The string that this conversion makes is a copy, which `from_spec`
/// cannot name as a value of `Id`; the conversion states its result over
/// the view instead, on `from` itself.
impl<'a> FromSpecImpl<&'a str> for Id {
    open spec fn obeys_from_spec() -> bool {
        false
    }

    open spec fn from_spec(val: &'a str) -> Id {
        Id::Null
    }
}

impl From<()> for Id {
    fn from(val: ()) -> (r: Id) {
        Id::Null
    }
}

impl FromSpecImpl<()> for Id {
    open spec fn obeys_from_spec() -> bool {
        true
    }

    open spec fn from_spec(val: ()) -> Id {
        Id::Null
    }
}

} // verus!
