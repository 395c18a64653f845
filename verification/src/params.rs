//! Call parameters.

use vstd::prelude::*;
use vstd::std_specs::cmp::PartialEqSpecImpl;
use vstd::std_specs::convert::FromSpec;
use vstd::std_specs::convert::FromSpecImpl;
use crate::json::{
    clone_items,
    has_member,
    items_equal,
    items_view,
    json_equal,
    lemma_arrays_equal,
    lemma_items_view,
    lemma_json_equal_reflexive,
    lemma_objects_equal,
    Json,
    JsonValue,
    Object,
};

verus! {

/// The parameters of a call: a list of values by position, an object of
/// values by name, or null.
#[derive(Debug)]
pub enum Params {
    /// Parameters by position.
    Array(Vec<Json>),
    /// Parameters by name, in the order in which they were given.
    Object(Object),
    /// Null parameters, JSON `null`.
    Null,
}

/// The model of a [`Params`].
pub enum ParamsValue {
    Array(Seq<JsonValue>),
    Object(Seq<(Seq<char>, JsonValue)>),
    Null,
}

impl View for Params {
    type V = ParamsValue;

    open spec fn view(&self) -> ParamsValue {
        match self {
            Params::Array(items) => ParamsValue::Array(items_view(items@)),
            Params::Object(members) => ParamsValue::Object(members@),
            Params::Null => ParamsValue::Null,
        }
    }
}

/// The parameters that any JSON value converts to: an array gives a list, an
/// object gives named parameters, and every other value gives null.
pub open spec fn params_of(value: JsonValue) -> ParamsValue {
    match value {
        JsonValue::Array(items) => ParamsValue::Array(items),
        JsonValue::Object(members) => ParamsValue::Object(members),
        _ => ParamsValue::Null,
    }
}

/// The JSON value that stands for parameters on the wire.
pub open spec fn params_wire(params: ParamsValue) -> JsonValue {
    match params {
        ParamsValue::Array(items) => JsonValue::Array(items),
        ParamsValue::Object(members) => JsonValue::Object(members),
        ParamsValue::Null => JsonValue::Null,
    }
}

/// The parameters that a `params` member holds: an array, an object or
/// `null`. A member of any other type holds no parameters.
pub open spec fn params_read(value: JsonValue) -> Option<ParamsValue> {
    match value {
        JsonValue::Array(items) => Some(ParamsValue::Array(items)),
        JsonValue::Object(members) => Some(ParamsValue::Object(members)),
        JsonValue::Null => Some(ParamsValue::Null),
        _ => None,
    }
}

/// Whether two parameter values say the same: lists item by item in order,
/// named parameters whatever their order.
pub open spec fn params_equal(a: ParamsValue, b: ParamsValue) -> bool {
    json_equal(params_wire(a), params_wire(b))
}

/// Parameters are read back from their wire form unchanged.
pub proof fn lemma_params_round_trip(params: ParamsValue)
    ensures
        params_read(params_wire(params)) == Some(params),
{
}

/// Named parameters are equal whatever the order in which they were given:
/// two objects that hold the same members, each as often as the other, are
/// equal.
pub proof fn lemma_named_params_equal_in_any_order(
    a: Seq<(Seq<char>, JsonValue)>,
    b: Seq<(Seq<char>, JsonValue)>,
)
    requires
        a.to_multiset() == b.to_multiset(),
    ensures
        params_equal(ParamsValue::Object(a), ParamsValue::Object(b)),
{
    a.to_multiset_ensures();
    b.to_multiset_ensures();
    lemma_objects_equal(a, b);
    assert forall|i: int| #![trigger a[i]] 0 <= i < a.len() implies has_member(
        b,
        a[i].0,
        a[i].1,
    ) by {
        assert(a.contains(a[i]));
        assert(a.to_multiset().count(a[i]) > 0);
        assert(b.contains(a[i]));
        let j = choose|j: int| 0 <= j < b.len() && b[j] == a[i];
        lemma_json_equal_reflexive(a[i].1);
        assert(b[j].0 == a[i].0 && json_equal(a[i].1, b[j].1));
    }
}

/// Positional parameters are equal only in the same order: two lists are
/// equal exactly when they are as long as each other and say the same at
/// each position.
pub proof fn lemma_positional_params_equal_in_order(a: Seq<JsonValue>, b: Seq<JsonValue>)
    ensures
        params_equal(ParamsValue::Array(a), ParamsValue::Array(b)) <==> (a.len() == b.len()
            && forall|i: int| #![trigger a[i]] 0 <= i < a.len() ==> json_equal(a[i], b[i])),
{
    lemma_arrays_equal(a, b);
}

impl Params {
    /// The list, where the parameters are given by position.
    pub fn get_array(&self) -> (r: Option<&Vec<Json>>)
        ensures
            match r {
                Some(items) => *self == Params::Array(*items),
                None => !(self is Array),
            },
    {
        if let Params::Array(ref v) = *self {
            Some(v)
        } else {
            None
        }
    }

    /// The members, where the parameters are given by name.
    pub fn get_map(&self) -> (r: Option<&Object>)
        ensures
            match r {
                Some(members) => *self == Params::Object(*members),
                None => !(self is Object),
            },
    {
        if let Params::Object(ref v) = *self {
            Some(v)
        } else {
            None
        }
    }

    /// The parameters as they stand on the wire.
    pub fn to_json(&self) -> (r: Json)
        ensures
            r@ == params_wire(self@),
    {
        match self {
            Params::Array(items) => Json::Array(clone_items(items)),
            Params::Object(members) => Json::Object(members.clone()),
            Params::Null => Json::Null,
        }
    }

    /// Reads the value of a `params` member; `None` where it has the wrong type.
    pub fn from_json(value: &Json) -> (r: Option<Params>)
        ensures
            match r {
                Some(params) => params_read(value@) == Some(params@),
                None => params_read(value@) is None,
            },
    {
        match value {
            Json::Array(items) => Some(Params::Array(clone_items(items))),
            Json::Object(members) => Some(Params::Object(members.clone())),
            Json::Null => Some(Params::Null),
            _ => None,
        }
    }
}

/// What can be given where parameters are asked for: parameters, a list or
/// a slice of values, an object, `()` for null, or any JSON document.
pub trait IntoParams: Sized {
    /// The parameters that the value stands for.
    spec fn params_value(self) -> ParamsValue;

    /// The parameters that the value stands for.
    fn into_params(self) -> (params: Params)
        ensures
            params@ == self.params_value(),
    ;
}

impl IntoParams for Params {
    open spec fn params_value(self) -> ParamsValue {
        self@
    }

    fn into_params(self) -> (params: Params) {
        self
    }
}

impl IntoParams for Json {
    open spec fn params_value(self) -> ParamsValue {
        params_of(self@)
    }

    fn into_params(self) -> (params: Params) {
        Params::from(self)
    }
}

impl IntoParams for Vec<Json> {
    open spec fn params_value(self) -> ParamsValue {
        ParamsValue::Array(items_view(self@))
    }

    fn into_params(self) -> (params: Params) {
        Params::Array(self)
    }
}

impl<'a> IntoParams for &'a [Json] {
    open spec fn params_value(self) -> ParamsValue {
        ParamsValue::Array(items_view(self@))
    }

    fn into_params(self) -> (params: Params) {
        Params::from(self)
    }
}

impl IntoParams for Object {
    open spec fn params_value(self) -> ParamsValue {
        ParamsValue::Object(self@)
    }

    fn into_params(self) -> (params: Params) {
        Params::Object(self)
    }
}

impl IntoParams for () {
    open spec fn params_value(self) -> ParamsValue {
        ParamsValue::Null
    }

    fn into_params(self) -> (params: Params) {
        Params::Null
    }
}

impl Clone for Params {
    fn clone(&self) -> (r: Params)
        ensures
            r@ == self@,
    {
        match self {
            Params::Array(items) => Params::Array(clone_items(items)),
            Params::Object(members) => Params::Object(members.clone()),
            Params::Null => Params::Null,
        }
    }
}

impl PartialEq for Params {
    fn eq(&self, other: &Params) -> (r: bool) {
        match (self, other) {
            (Params::Array(xs), Params::Array(ys)) => items_equal(xs, ys),
            (Params::Object(xs), Params::Object(ys)) => xs.equals(ys),
            (Params::Null, Params::Null) => true,
            _ => false,
        }
    }
}

impl PartialEqSpecImpl for Params {
    open spec fn obeys_eq_spec() -> bool {
        true
    }

    open spec fn eq_spec(&self, other: &Params) -> bool {
        params_equal(self@, other@)
    }
}

impl From<Json> for Params {
    fn from(val: Json) -> (r: Params) {
        match val {
            Json::Array(v) => Params::Array(v),
            Json::Object(v) => Params::Object(v),
            _ => Params::Null,
        }
    }
}

impl FromSpecImpl<Json> for Params {
    open spec fn obeys_from_spec() -> bool {
        true
    }

    open spec fn from_spec(val: Json) -> Params {
        match val {
            Json::Array(v) => Params::Array(v),
            Json::Object(v) => Params::Object(v),
            _ => Params::Null,
        }
    }
}

/// The conversion from a document gives what [`params_of`] says of its model.
pub proof fn lemma_params_from_json(val: Json)
    ensures
        <Params as FromSpec<Json>>::from_spec(val)@ == params_of(val@),
{
}

impl From<Vec<Json>> for Params {
    fn from(val: Vec<Json>) -> (r: Params) {
        Params::Array(val)
    }
}

impl FromSpecImpl<Vec<Json>> for Params {
    open spec fn obeys_from_spec() -> bool {
        true
    }

    open spec fn from_spec(val: Vec<Json>) -> Params {
        Params::Array(val)
    }
}

impl<'a> From<&'a [Json]> for Params {
    fn from(val: &'a [Json]) -> (r: Params)
        ensures
            r@ == ParamsValue::Array(items_view(val@)),
    {
        let mut out: Vec<Json> = Vec::new();
        let mut i: usize = 0;
        while i < val.len()
            invariant
                i <= val.len(),
                out.len() == i,
                forall|k: int| 0 <= k < i ==> out@[k]@ == val@[k]@,
            decreases val.len() - i,
        {
            out.push(val[i].clone());
            i += 1;
        }
        proof {
            lemma_items_view(val@);
            lemma_items_view(out@);
            assert(items_view(out@) =~= items_view(val@));
        }
        Params::Array(out)
    }
}

/// The list that this conversion makes is a copy, which `from_spec` cannot
/// name as a value of `Params`; the conversion states its result over the
/// view instead, on `from` itself.
impl<'a> FromSpecImpl<&'a [Json]> for Params {
    open spec fn obeys_from_spec() -> bool {
        false
    }

    open spec fn from_spec(val: &'a [Json]) -> Params {
        Params::Null
    }
}

impl From<Object> for Params {
    fn from(val: Object) -> (r: Params) {
        Params::Object(val)
    }
}

impl FromSpecImpl<Object> for Params {
    open spec fn obeys_from_spec() -> bool {
        true
    }

    open spec fn from_spec(val: Object) -> Params {
        Params::Object(val)
    }
}

impl From<()> for Params {
    fn from(val: ()) -> (r: Params) {
        Params::Null
    }
}

impl FromSpecImpl<()> for Params {
    open spec fn obeys_from_spec() -> bool {
        true
    }

    open spec fn from_spec(val: ()) -> Params {
        Params::Null
    }
}

} // verus!
