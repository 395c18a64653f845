//! JSON documents and their mathematical model.
//!
//! A [`Json`] is a document held in memory; a [`JsonValue`] is what it
//! holds, as mathematical values. An [`Object`] keeps its members in the
//! order in which they were put in, keeps their names apart, and finds a
//! member by its name through an index that `serde_json`'s map keeps. Two
//! documents are equal when they say the same: arrays item by item, objects
//! whatever the order of their members.

use vstd::prelude::*;
use vstd::std_specs::cmp::PartialEqSpecImpl;
use crate::index::{index_clone, index_get, index_new, index_put, places};
use crate::number::{number_made, Number, NumberKind, NumberValue};

verus! {

/// The model of a JSON document: what a [`Json`] holds, as mathematical values.
pub enum JsonValue {
    Null,
    Bool(bool),
    Number(NumberValue),
    String(Seq<char>),
    Array(Seq<JsonValue>),
    /// The members in the order in which they stand.
    Object(Seq<(Seq<char>, JsonValue)>),
}

/// A JSON document held in memory.
#[derive(Debug)]
pub enum Json {
    Null,
    Bool(bool),
    Number(Number),
    String(String),
    Array(Vec<Json>),
    Object(Object),
}

/// The members of a JSON object: values under names, in the order in which
/// they were put in. No name occurs twice. The members are found by their
/// names through an index that holds the place of each.
#[derive(Debug)]
pub struct Object {
    index: serde_json::Map<String, serde_json::Value>,
    members: Vec<(String, Json)>,
}

/// Whether an index holds, under the name of each member, the place of that
/// member, and nothing else.
pub open spec fn indexed(index: Map<Seq<char>, int>, members: Seq<(Seq<char>, JsonValue)>) -> bool {
    &&& forall|i: int|
        0 <= i < members.len() ==> index.contains_key((#[trigger] members[i]).0)
            && index[members[i].0] == i
    &&& forall|key: Seq<char>| #[trigger]
        index.contains_key(key) ==> 0 <= index[key] < members.len() && members[index[key]].0
            == key
}

/// Members that are indexed have names that differ.
pub proof fn lemma_indexed_unique(index: Map<Seq<char>, int>, members: Seq<(Seq<char>, JsonValue)>)
    requires
        indexed(index, members),
    ensures
        keys_unique(members),
{
    assert forall|i: int, j: int| 0 <= i < j < members.len() implies (#[trigger] members[i]).0
        != (#[trigger] members[j]).0 by {
        assert(index[members[i].0] == i);
        assert(index[members[j].0] == j);
    }
}

/// Whether no two members have the same name.
pub open spec fn keys_unique(members: Seq<(Seq<char>, JsonValue)>) -> bool {
    forall|i: int, j: int|
        0 <= i < j < members.len() ==> (#[trigger] members[i]).0 != (#[trigger] members[j]).0
}

/// The models of a sequence of documents, in order.
pub open spec fn items_view(items: Seq<Json>) -> Seq<JsonValue>
    decreases items,
{
    if items.len() == 0 {
        Seq::empty()
    } else {
        items_view(items.drop_last()).push(items.last().view())
    }
}

/// The models of an object's members, in order.
pub open spec fn members_view(members: Seq<(String, Json)>) -> Seq<(Seq<char>, JsonValue)>
    decreases members,
{
    if members.len() == 0 {
        Seq::empty()
    } else {
        members_view(members.drop_last()).push((members.last().0@, members.last().1.view()))
    }
}

impl View for Json {
    type V = JsonValue;

    open spec fn view(&self) -> JsonValue
        decreases self,
    {
        match self {
            Json::Null => JsonValue::Null,
            Json::Bool(b) => JsonValue::Bool(*b),
            Json::Number(n) => JsonValue::Number(n@),
            Json::String(s) => JsonValue::String(s@),
            Json::Array(items) => JsonValue::Array(items_view(items@)),
            Json::Object(object) => JsonValue::Object(object.view()),
        }
    }
}

impl View for Object {
    type V = Seq<(Seq<char>, JsonValue)>;

    closed spec fn view(&self) -> Seq<(Seq<char>, JsonValue)>
        decreases self,
    {
        members_view(self.members@)
    }
}

/// Members stay indexed where a value takes the place of another.
pub proof fn lemma_indexed_update(
    index: Map<Seq<char>, int>,
    members: Seq<(Seq<char>, JsonValue)>,
    i: int,
    value: JsonValue,
)
    requires
        indexed(index, members),
        0 <= i < members.len(),
    ensures
        indexed(index, members.update(i, (members[i].0, value))),
{
    let after = members.update(i, (members[i].0, value));
    assert forall|k: int| 0 <= k < after.len() implies index.contains_key(
        (#[trigger] after[k]).0,
    ) && index[after[k].0] == k by {
        assert(after[k].0 == members[k].0);
    }
    assert forall|key: Seq<char>| #[trigger] index.contains_key(key) implies 0 <= index[key]
        < after.len() && after[index[key]].0 == key by {
        assert(members[index[key]].0 == key);
    }
}

/// Members stay indexed where a member of a new name comes at the end and
/// its place is put into the index.
pub proof fn lemma_indexed_push(
    index: Map<Seq<char>, int>,
    members: Seq<(Seq<char>, JsonValue)>,
    key: Seq<char>,
    value: JsonValue,
)
    requires
        indexed(index, members),
        !index.contains_key(key),
    ensures
        indexed(index.insert(key, members.len() as int), members.push((key, value))),
{
    let after = members.push((key, value));
    let index_after = index.insert(key, members.len() as int);
    assert forall|k: int| 0 <= k < after.len() implies index_after.contains_key(
        (#[trigger] after[k]).0,
    ) && index_after[after[k].0] == k by {
        if k < members.len() {
            assert(after[k] == members[k]);
            assert(index.contains_key(members[k].0));
        }
    }
    assert forall|name: Seq<char>| #[trigger] index_after.contains_key(name) implies 0
        <= index_after[name] < after.len() && after[index_after[name]].0 == name by {
        if name != key {
            assert(index.contains_key(name));
            assert(after[index[name]] == members[index[name]]);
        }
    }
}

impl Object {
    #[verifier::type_invariant]
    spec fn well_indexed(&self) -> bool {
        indexed(places(self.index), self@)
    }
}

/// `items_view` keeps the length and models each item in its place.
pub proof fn lemma_items_view(items: Seq<Json>)
    ensures
        items_view(items).len() == items.len(),
        forall|i: int| 0 <= i < items.len() ==> #[trigger] items_view(items)[i] == items[i]@,
    decreases items.len(),
{
    if items.len() > 0 {
        lemma_items_view(items.drop_last());
        assert(items_view(items) == items_view(items.drop_last()).push(items.last()@));
    } else {
        assert(items_view(items) == Seq::<JsonValue>::empty());
    }
}

/// `members_view` keeps the length and models each member in its place.
pub proof fn lemma_members_view(members: Seq<(String, Json)>)
    ensures
        members_view(members).len() == members.len(),
        forall|i: int|
            0 <= i < members.len() ==> #[trigger] members_view(members)[i] == (
                members[i].0@,
                members[i].1@,
            ),
    decreases members.len(),
{
    if members.len() > 0 {
        lemma_members_view(members.drop_last());
        assert(members_view(members) == members_view(members.drop_last()).push(
            (members.last().0@, members.last().1@),
        ));
    } else {
        assert(members_view(members) == Seq::<(Seq<char>, JsonValue)>::empty());
    }
}

/// A copy of `items`, item by item.
pub fn clone_items(items: &Vec<Json>) -> (r: Vec<Json>)
    ensures
        items_view(r@) == items_view(items@),
    decreases items,
{
    let mut out: Vec<Json> = Vec::new();
    let mut i: usize = 0;
    while i < items.len()
        invariant
            i <= items.len(),
            out.len() == i,
            forall|k: int| 0 <= k < i ==> out@[k]@ == items@[k]@,
        decreases items.len() - i,
    {
        proof {
            assert(decreases_to!(*items => items[i as int]));
        }
        let item = items[i].clone();
        out.push(item);
        i += 1;
    }
    proof {
        lemma_items_view(items@);
        lemma_items_view(out@);
        assert(items_view(out@) =~= items_view(items@));
    }
    out
}

/// A copy of `members`, member by member.
fn clone_members(members: &Vec<(String, Json)>) -> (r: Vec<(String, Json)>)
    ensures
        members_view(r@) == members_view(members@),
    decreases members,
{
    let mut out: Vec<(String, Json)> = Vec::new();
    let mut i: usize = 0;
    while i < members.len()
        invariant
            i <= members.len(),
            out.len() == i,
            forall|k: int|
                0 <= k < i ==> out@[k].0@ == members@[k].0@ && out@[k].1@ == members@[k].1@,
        decreases members.len() - i,
    {
        proof {
            assert(decreases_to!(*members => members[i as int]));
            assert(decreases_to!(members[i as int] => members[i as int].1));
        }
        let key = members[i].0.clone();
        let value = members[i].1.clone();
        out.push((key, value));
        i += 1;
    }
    proof {
        lemma_members_view(members@);
        lemma_members_view(out@);
        assert(members_view(out@) =~= members_view(members@));
    }
    out
}

impl Clone for Json {
    fn clone(&self) -> (r: Json)
        ensures
            r@ == self@,
        decreases self,
    {
        match self {
            Json::Null => Json::Null,
            Json::Bool(b) => Json::Bool(*b),
            Json::Number(n) => Json::Number(n.clone()),
            Json::String(s) => Json::String(s.clone()),
            Json::Array(items) => {
                proof {
                    assert(decreases_to!(*self => self->Array_0));
                }
                Json::Array(clone_items(items))
            },
            Json::Object(object) => {
                proof {
                    assert(decreases_to!(*self => self->Object_0));
                }
                Json::Object(object.clone())
            },
        }
    }
}

impl Clone for Object {
    fn clone(&self) -> (r: Object)
        ensures
            r@ == self@,
        decreases self,
    {
        proof {
            use_type_invariant(self);
            assert(decreases_to!(*self => self.members));
        }
        Object { index: index_clone(&self.index), members: clone_members(&self.members) }
    }
}

/// The value of the first member of `members` whose key is `key`.
pub open spec fn lookup(members: Seq<(Seq<char>, JsonValue)>, key: Seq<char>) -> Option<JsonValue>
    decreases members.len(),
{
    if members.len() == 0 {
        None
    } else if members[0].0 == key {
        Some(members[0].1)
    } else {
        lookup(members.drop_first(), key)
    }
}

/// The members after `value` was put under `key`: in the place of the first
/// member of that name where there is one, and else at the end.
pub open spec fn inserted(
    members: Seq<(Seq<char>, JsonValue)>,
    key: Seq<char>,
    value: JsonValue,
) -> Seq<(Seq<char>, JsonValue)>
    decreases members.len(),
{
    if members.len() == 0 {
        seq![(key, value)]
    } else if members[0].0 == key {
        members.update(0, (key, value))
    } else {
        seq![members[0]] + inserted(members.drop_first(), key, value)
    }
}

/// The members after each of `members` was put into an empty object, one
/// after the other.
pub open spec fn collected(members: Seq<(Seq<char>, JsonValue)>) -> Seq<(Seq<char>, JsonValue)>
    decreases members.len(),
{
    if members.len() == 0 {
        Seq::empty()
    } else {
        inserted(collected(members.drop_last()), members.last().0, members.last().1)
    }
}

impl JsonValue {
    /// Whether no object in the document, at any depth, has two members of
    /// one name. Every [`Object`] is made so.
    pub open spec fn well_formed(self) -> bool
        decreases self,
    {
        match self {
            JsonValue::Array(items) => forall|i: int|
                #![trigger items[i]]
                0 <= i < items.len() ==> items[i].well_formed(),
            JsonValue::Object(members) => keys_unique(members) && forall|i: int|
                #![trigger members[i]]
                0 <= i < members.len() ==> members[i].1.well_formed(),
            _ => true,
        }
    }

    /// The value that stands under `key`, where this is an object that has such a member.
    pub open spec fn get(self, key: Seq<char>) -> Option<JsonValue> {
        match self {
            JsonValue::Object(members) => lookup(members, key),
            _ => None,
        }
    }
}

/// Whether `members` holds `value`, in the sense of [`json_equal`], under `key`.
pub open spec fn has_member(
    members: Seq<(Seq<char>, JsonValue)>,
    key: Seq<char>,
    value: JsonValue,
) -> bool
    decreases value, 1int,
{
    exists|j: int|
        #![trigger members[j]]
        0 <= j < members.len() && members[j].0 == key && json_equal(value, members[j].1)
}

/// Whether two documents say the same. Arrays are compared item by item, in
/// order. Objects are compared member by member, whatever the order: they
/// must have the same number of members, and each member of `a` must stand
/// in `b` under the same key with an equal value.
pub open spec fn json_equal(a: JsonValue, b: JsonValue) -> bool
    decreases a, 0int,
{
    match a {
        JsonValue::Null => b is Null,
        JsonValue::Bool(_) => b == a,
        JsonValue::Number(_) => b == a,
        JsonValue::String(_) => b == a,
        JsonValue::Array(x) => b is Array && x.len() == b->Array_0.len() && forall|i: int|
            #![trigger x[i]]
            0 <= i < x.len() ==> json_equal(x[i], b->Array_0[i]),
        JsonValue::Object(x) => b is Object && x.len() == b->Object_0.len() && forall|i: int|
            #![trigger x[i]]
            0 <= i < x.len() ==> has_member(b->Object_0, x[i].0, x[i].1),
    }
}

/// What [`json_equal`] says of two arrays.
pub proof fn lemma_arrays_equal(x: Seq<JsonValue>, y: Seq<JsonValue>)
    ensures
        json_equal(JsonValue::Array(x), JsonValue::Array(y)) <==> (x.len() == y.len()
            && forall|i: int| #![trigger x[i]] 0 <= i < x.len() ==> json_equal(x[i], y[i])),
{
}

/// What [`json_equal`] says of two objects.
pub proof fn lemma_objects_equal(x: Seq<(Seq<char>, JsonValue)>, y: Seq<(Seq<char>, JsonValue)>)
    ensures
        json_equal(JsonValue::Object(x), JsonValue::Object(y)) <==> (x.len() == y.len()
            && forall|i: int|
            #![trigger x[i]]
            0 <= i < x.len() ==> has_member(y, x[i].0, x[i].1)),
{
}

/// A lookup skips the members in front whose keys differ from `key`.
pub proof fn lemma_lookup_skip(members: Seq<(Seq<char>, JsonValue)>, key: Seq<char>, n: int)
    requires
        0 <= n <= members.len(),
        forall|k: int| 0 <= k < n ==> (#[trigger] members[k]).0 != key,
    ensures
        lookup(members, key) == lookup(members.skip(n), key),
    decreases n,
{
    if n == 0 {
        assert(members.skip(0) =~= members);
    } else {
        lemma_lookup_skip(members, key, n - 1);
        let rest = members.skip(n - 1);
        assert(rest[0] == members[n - 1]);
        assert(rest.drop_first() =~= members.skip(n));
    }
}

/// A lookup finds the first member under `key`.
pub proof fn lemma_lookup_found(members: Seq<(Seq<char>, JsonValue)>, key: Seq<char>, n: int)
    requires
        0 <= n < members.len(),
        members[n].0 == key,
        forall|k: int| 0 <= k < n ==> (#[trigger] members[k]).0 != key,
    ensures
        lookup(members, key) == Some(members[n].1),
{
    lemma_lookup_skip(members, key, n);
    assert(members.skip(n)[0] == members[n]);
}

/// A lookup finds nothing where no member stands under `key`.
pub proof fn lemma_lookup_missing(members: Seq<(Seq<char>, JsonValue)>, key: Seq<char>)
    requires
        forall|k: int| 0 <= k < members.len() ==> (#[trigger] members[k]).0 != key,
    ensures
        lookup(members, key) is None,
{
    lemma_lookup_skip(members, key, members.len() as int);
}

/// A value put under a name that is there takes the place of the first
/// member of that name.
pub proof fn lemma_inserted_found(
    members: Seq<(Seq<char>, JsonValue)>,
    key: Seq<char>,
    value: JsonValue,
    n: int,
)
    requires
        0 <= n < members.len(),
        members[n].0 == key,
        forall|k: int| 0 <= k < n ==> (#[trigger] members[k]).0 != key,
    ensures
        inserted(members, key, value) == members.update(n, (key, value)),
    decreases n,
{
    if n > 0 {
        let rest = members.drop_first();
        lemma_inserted_found(rest, key, value, n - 1);
        assert(seq![members[0]] + rest.update(n - 1, (key, value)) =~= members.update(
            n,
            (key, value),
        ));
    }
}

/// A value put under a name that is not there comes at the end.
pub proof fn lemma_inserted_missing(
    members: Seq<(Seq<char>, JsonValue)>,
    key: Seq<char>,
    value: JsonValue,
)
    requires
        forall|k: int| 0 <= k < members.len() ==> (#[trigger] members[k]).0 != key,
    ensures
        inserted(members, key, value) == members.push((key, value)),
    decreases members.len(),
{
    if members.len() > 0 {
        let rest = members.drop_first();
        lemma_inserted_missing(rest, key, value);
        assert(seq![members[0]] + rest.push((key, value)) =~= members.push((key, value)));
    }
}

/// Putting a value into members whose names differ leaves names that differ.
pub proof fn lemma_inserted_unique(
    members: Seq<(Seq<char>, JsonValue)>,
    key: Seq<char>,
    value: JsonValue,
)
    requires
        keys_unique(members),
    ensures
        keys_unique(inserted(members, key, value)),
{
    if exists|n: int| 0 <= n < members.len() && (#[trigger] members[n]).0 == key {
        let n = choose|n: int| 0 <= n < members.len() && (#[trigger] members[n]).0 == key;
        lemma_inserted_found(members, key, value, n);
    } else {
        lemma_inserted_missing(members, key, value);
    }
}

/// Members whose names differ are collected as they are, in their order.
pub proof fn lemma_collected_unique(members: Seq<(Seq<char>, JsonValue)>)
    requires
        keys_unique(members),
    ensures
        collected(members) == members,
    decreases members.len(),
{
    if members.len() > 0 {
        let front = members.drop_last();
        lemma_collected_unique(front);
        lemma_inserted_missing(front, members.last().0, members.last().1);
        assert(front.push(members.last()) =~= members);
    }
}

/// What is collected has names that differ.
pub proof fn lemma_collected_keys_unique(members: Seq<(Seq<char>, JsonValue)>)
    ensures
        keys_unique(collected(members)),
    decreases members.len(),
{
    if members.len() > 0 {
        lemma_collected_keys_unique(members.drop_last());
        lemma_inserted_unique(collected(members.drop_last()), members.last().0, members.last().1);
    }
}

/// Every document says the same as itself.
pub proof fn lemma_json_equal_reflexive(v: JsonValue)
    ensures
        json_equal(v, v),
    decreases v,
{
    match v {
        JsonValue::Array(x) => {
            assert forall|i: int| #![trigger x[i]] 0 <= i < x.len() implies json_equal(
                x[i],
                x[i],
            ) by {
                lemma_json_equal_reflexive(x[i]);
            }
            lemma_arrays_equal(x, x);
        },
        JsonValue::Object(x) => {
            assert forall|i: int| #![trigger x[i]] 0 <= i < x.len() implies has_member(
                x,
                x[i].0,
                x[i].1,
            ) by {
                lemma_json_equal_reflexive(x[i].1);
            }
            lemma_objects_equal(x, x);
        },
        _ => {},
    }
}

/// Whether two sequences of documents say the same, item by item.
pub fn items_equal(xs: &Vec<Json>, ys: &Vec<Json>) -> (r: bool)
    ensures
        r == json_equal(JsonValue::Array(items_view(xs@)), JsonValue::Array(items_view(ys@))),
    decreases xs,
{
    let ghost xv = items_view(xs@);
    let ghost yv = items_view(ys@);
    proof {
        lemma_items_view(xs@);
        lemma_items_view(ys@);
        lemma_arrays_equal(xv, yv);
    }
    if xs.len() != ys.len() {
        return false;
    }
    let mut i: usize = 0;
    while i < xs.len()
        invariant
            i <= xs.len(),
            xs.len() == ys.len(),
            xv == items_view(xs@),
            yv == items_view(ys@),
            xv.len() == xs.len(),
            yv.len() == ys.len(),
            forall|k: int| 0 <= k < xs.len() ==> #[trigger] xv[k] == xs@[k]@,
            forall|k: int| 0 <= k < ys.len() ==> #[trigger] yv[k] == ys@[k]@,
            forall|k: int| #![trigger xv[k]] 0 <= k < i ==> json_equal(xv[k], yv[k]),
        decreases xs.len() - i,
    {
        proof {
            assert(decreases_to!(*xs => xs[i as int]));
        }
        if !xs[i].equals(&ys[i]) {
            proof {
                lemma_arrays_equal(xv, yv);
                assert(!json_equal(xv[i as int], yv[i as int]));
            }
            return false;
        }
        i += 1;
    }
    proof {
        lemma_arrays_equal(xv, yv);
    }
    true
}

/// Whether two sequences of members say the same, whatever their order.
fn members_equal(xs: &Vec<(String, Json)>, ys: &Vec<(String, Json)>) -> (r: bool)
    ensures
        r == json_equal(
            JsonValue::Object(members_view(xs@)),
            JsonValue::Object(members_view(ys@)),
        ),
    decreases xs,
{
    let ghost xv = members_view(xs@);
    let ghost yv = members_view(ys@);
    proof {
        lemma_members_view(xs@);
        lemma_members_view(ys@);
        lemma_objects_equal(xv, yv);
    }
    if xs.len() != ys.len() {
        return false;
    }
    let mut i: usize = 0;
    while i < xs.len()
        invariant
            i <= xs.len(),
            xs.len() == ys.len(),
            xv == members_view(xs@),
            yv == members_view(ys@),
            xv.len() == xs.len(),
            yv.len() == ys.len(),
            forall|k: int| 0 <= k < xs.len() ==> #[trigger] xv[k] == (xs@[k].0@, xs@[k].1@),
            forall|k: int| 0 <= k < ys.len() ==> #[trigger] yv[k] == (ys@[k].0@, ys@[k].1@),
            forall|k: int| #![trigger xv[k]] 0 <= k < i ==> has_member(yv, xv[k].0, xv[k].1),
        decreases xs.len() - i,
    {
        let mut found = false;
        let mut j: usize = 0;
        while j < ys.len() && !found
            invariant
                j <= ys.len(),
                i < xs.len(),
                xv.len() == xs.len(),
                yv.len() == ys.len(),
                forall|k: int| 0 <= k < xs.len() ==> #[trigger] xv[k] == (xs@[k].0@, xs@[k].1@),
                forall|k: int| 0 <= k < ys.len() ==> #[trigger] yv[k] == (ys@[k].0@, ys@[k].1@),
                found ==> has_member(yv, xv[i as int].0, xv[i as int].1),
                !found ==> forall|k: int|
                    #![trigger yv[k]]
                    0 <= k < j ==> !(yv[k].0 == xv[i as int].0 && json_equal(
                        xv[i as int].1,
                        yv[k].1,
                    )),
            decreases ys.len() - j + (if found { 0int } else { 1int }),
        {
            proof {
                assert(decreases_to!(*xs => xs[i as int]));
                assert(decreases_to!(xs[i as int] => xs[i as int].1));
            }
            if xs[i].0 == ys[j].0 && xs[i].1.equals(&ys[j].1) {
                found = true;
                assert(yv[j as int].0 == xv[i as int].0 && json_equal(
                    xv[i as int].1,
                    yv[j as int].1,
                ));
            } else {
                assert(!(yv[j as int].0 == xv[i as int].0 && json_equal(
                    xv[i as int].1,
                    yv[j as int].1,
                )));
                j += 1;
            }
        }
        if !found {
            proof {
                lemma_objects_equal(xv, yv);
                assert(!has_member(yv, xv[i as int].0, xv[i as int].1));
            }
            return false;
        }
        i += 1;
    }
    proof {
        lemma_objects_equal(xv, yv);
    }
    true
}

/// The model of a document that may be missing.
pub open spec fn optional_view(value: Option<&Json>) -> Option<JsonValue> {
    match value {
        Some(value) => Some(value@),
        None => None,
    }
}

impl Object {
    /// An object without members.
    pub fn new() -> (r: Object)
        ensures
            r@ == Seq::<(Seq<char>, JsonValue)>::empty(),
    {
        proof {
            lemma_members_view(Seq::<(String, Json)>::empty());
        }
        Object { index: index_new(), members: Vec::new() }
    }

    /// An object with the given members, whose names differ.
    pub(crate) fn from_unique(members: Vec<(String, Json)>) -> (r: Object)
        requires
            keys_unique(members_view(members@)),
        ensures
            r@ == members_view(members@),
    {
        proof {
            lemma_collected_unique(members_view(members@));
        }
        Object::from_members(members)
    }

    /// The object that holds each of `members`, put in one after the other:
    /// of two members with one name the later one stays, in the place of the
    /// earlier one.
    pub fn from_members(members: Vec<(String, Json)>) -> (r: Object)
        ensures
            r@ == collected(members_view(members@)),
            keys_unique(r@),
    {
        let ghost raw = members@;
        let ghost all = members_view(raw);
        let mut object = Object::new();
        proof {
            lemma_members_view(raw);
        }
        for member in it: members.into_iter()
            invariant
                it.seq() == raw,
                all == members_view(raw),
                all.len() == raw.len(),
                forall|k: int| 0 <= k < raw.len() ==> #[trigger] all[k] == (raw[k].0@, raw[k].1@),
                object@ == collected(all.take(it.index() as int)),
        {
            proof {
                let done = it.index() as int;
                assert(all.take(done + 1).drop_last() =~= all.take(done));
                assert(all.take(done + 1).last() == all[done]);
            }
            object.insert(member.0, member.1);
        }
        proof {
            assert(all.take(raw.len() as int) =~= all);
            lemma_collected_keys_unique(all);
        }
        object
    }

    /// The number of members.
    pub fn len(&self) -> (r: usize)
        ensures
            r == self@.len(),
    {
        proof {
            lemma_members_view(self.members@);
        }
        self.members.len()
    }

    /// Whether there is no member.
    pub fn is_empty(&self) -> (r: bool)
        ensures
            r == (self@.len() == 0),
    {
        proof {
            lemma_members_view(self.members@);
        }
        self.members.len() == 0
    }

    /// The members, in their order. Their names differ.
    pub fn members(&self) -> (r: &[(String, Json)])
        ensures
            members_view(r@) == self@,
            keys_unique(self@),
    {
        proof {
            use_type_invariant(self);
            lemma_indexed_unique(places(self.index), self@);
        }
        self.members.as_slice()
    }

    /// Puts `value` under `key`: in the place of the value that was under
    /// that name, which is handed back, or at the end where there was none.
    pub fn insert(&mut self, key: String, value: Json) -> (r: Option<Json>)
        ensures
            final(self)@ == inserted(old(self)@, key@, value@),
            keys_unique(final(self)@),
            match r {
                Some(previous) => lookup(old(self)@, key@) == Some(previous@),
                None => lookup(old(self)@, key@) is None,
            },
    {
        let ghost before = self@;
        let mut taken = Object::new();
        core::mem::swap(self, &mut taken);
        proof {
            use_type_invariant(&taken);
            lemma_members_view(taken.members@);
            lemma_indexed_unique(places(taken.index), before);
        }
        let mut index = taken.index;
        let mut members = taken.members;
        let n = members.len();
        let ghost held = places(index);
        let previous = match index_get(&index, key.as_str()) {
            Some(place) => {
                proof {
                    assert(held.contains_key(key@));
                }
                let i = place as usize;
                let old_member = members.remove(i);
                members.insert(i, (key, value));
                proof {
                    lemma_members_view(members@);
                    lemma_inserted_found(before, key@, value@, i as int);
                    lemma_lookup_found(before, key@, i as int);
                    assert(members_view(members@) =~= before.update(i as int, (key@, value@)));
                    lemma_indexed_update(held, before, i as int, value@);
                }
                Some(old_member.1)
            },
            None => {
                index_put(&mut index, key.clone(), n as u64);
                members.push((key, value));
                proof {
                    lemma_members_view(members@);
                    assert forall|k: int| 0 <= k < before.len() implies (#[trigger] before[k]).0
                        != key@ by {
                        assert(held.contains_key(before[k].0));
                    }
                    lemma_inserted_missing(before, key@, value@);
                    lemma_lookup_missing(before, key@);
                    assert(members_view(members@) =~= before.push((key@, value@)));
                    lemma_indexed_push(held, before, key@, value@);
                }
                None
            },
        };
        *self = Object { index, members };
        proof {
            lemma_inserted_unique(before, key@, value@);
        }
        previous
    }

    /// The value under `key`, where there is one.
    pub fn get(&self, key: &str) -> (r: Option<&Json>)
        ensures
            match r {
                Some(value) => lookup(self@, key@) == Some(value@),
                None => lookup(self@, key@) is None,
            },
    {
        proof {
            use_type_invariant(self);
            lemma_members_view(self.members@);
            lemma_indexed_unique(places(self.index), self@);
        }
        let n = self.members.len();
        match index_get(&self.index, key) {
            Some(place) => {
                proof {
                    assert(places(self.index).contains_key(key@));
                    assert(place < n);
                }
                let i = place as usize;
                proof {
                    lemma_lookup_found(self@, key@, i as int);
                }
                Some(&self.members[i].1)
            },
            None => {
                proof {
                    assert forall|k: int| 0 <= k < self@.len() implies (#[trigger] self@[k]).0
                        != key@ by {
                        assert(places(self.index).contains_key(self@[k].0));
                    }
                    lemma_lookup_missing(self@, key@);
                }
                None
            },
        }
    }

    /// Whether the two objects say the same, whatever the order of their members.
    pub fn equals(&self, other: &Object) -> (r: bool)
        ensures
            r == json_equal(JsonValue::Object(self@), JsonValue::Object(other@)),
        decreases self,
    {
        proof {
            assert(decreases_to!(*self => self.members));
        }
        members_equal(&self.members, &other.members)
    }
}

impl Json {
    /// The document that holds the number made of `kind`; JSON `null` where
    /// no number is made of it.
    pub fn number(kind: NumberKind) -> (r: Json)
        ensures
            r@ == (match number_made(kind@) {
                Some(n) => JsonValue::Number(n),
                None => JsonValue::Null,
            }),
    {
        match Number::new(kind) {
            Some(n) => Json::Number(n),
            None => Json::Null,
        }
    }

    /// The value of the first member under `key`, where this is an object that has one.
    pub fn get(&self, key: &str) -> (r: Option<&Json>)
        ensures
            match r {
                Some(value) => self@.get(key@) == Some(value@),
                None => self@.get(key@) is None,
            },
    {
        match self {
            Json::Object(object) => object.get(key),
            _ => None,
        }
    }

    /// Whether the two documents say the same, as [`json_equal`] defines it.
    pub fn equals(&self, other: &Json) -> (r: bool)
        ensures
            r == json_equal(self@, other@),
        decreases self,
    {
        match (self, other) {
            (Json::Null, Json::Null) => true,
            (Json::Bool(a), Json::Bool(b)) => *a == *b,
            (Json::Number(a), Json::Number(b)) => *a == *b,
            (Json::String(a), Json::String(b)) => *a == *b,
            (Json::Array(xs), Json::Array(ys)) => {
                proof {
                    assert(decreases_to!(*self => self->Array_0));
                }
                items_equal(xs, ys)
            },
            (Json::Object(xs), Json::Object(ys)) => {
                proof {
                    assert(decreases_to!(*self => self->Object_0));
                }
                xs.equals(ys)
            },
            _ => false,
        }
    }
}

impl PartialEq for Object {
    fn eq(&self, other: &Object) -> (r: bool) {
        self.equals(other)
    }
}

impl PartialEqSpecImpl for Object {
    open spec fn obeys_eq_spec() -> bool {
        true
    }

    open spec fn eq_spec(&self, other: &Object) -> bool {
        json_equal(JsonValue::Object(self@), JsonValue::Object(other@))
    }
}

impl PartialEq for Json {
    fn eq(&self, other: &Json) -> (r: bool) {
        self.equals(other)
    }
}

impl PartialEqSpecImpl for Json {
    open spec fn obeys_eq_spec() -> bool {
        true
    }

    open spec fn eq_spec(&self, other: &Json) -> bool {
        json_equal(self@, other@)
    }
}

} // verus!
