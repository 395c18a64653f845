//! Equality of documents is an equivalence.
//!
//! Two objects are equal when each member of the one stands in the other.
//! That this reads the same from both sides rests on the names of an object
//! being apart: two objects of the same size, one contained in the other,
//! then contain each other.

use vstd::prelude::*;
use crate::json::{
    has_member,
    json_equal,
    keys_unique,
    lemma_arrays_equal,
    lemma_objects_equal,
    JsonValue,
};

verus! {

/// Whether `f` gives `k` for one of the first `n` numbers.
pub open spec fn reaches(n: nat, f: spec_fn(int) -> int, k: int) -> bool {
    exists|i: int| 0 <= i < n && #[trigger] f(i) == k
}

/// A function from the first `n` numbers into the first `n` numbers that
/// never gives one number twice gives every one of them.
pub proof fn lemma_injection_is_onto(n: nat, f: spec_fn(int) -> int)
    requires
        forall|i: int| 0 <= i < n ==> 0 <= #[trigger] f(i) < n,
        forall|i: int, j: int| 0 <= i < j < n ==> #[trigger] f(i) != #[trigger] f(j),
    ensures
        forall|k: int| 0 <= k < n ==> #[trigger] reaches(n, f, k),
    decreases n,
{
    if n > 0 {
        let last = f(n - 1);
        let g = |i: int|
            if f(i) < last {
                f(i)
            } else {
                f(i) - 1
            };
        assert forall|i: int| 0 <= i < n - 1 implies 0 <= #[trigger] g(i) < n - 1 by {
            assert(f(i) != f(n - 1));
        }
        assert forall|i: int, j: int| 0 <= i < j < n - 1 implies #[trigger] g(i) != #[trigger] g(
            j,
        ) by {
            assert(f(i) != f(j));
            assert(f(i) != f(n - 1));
            assert(f(j) != f(n - 1));
        }
        lemma_injection_is_onto((n - 1) as nat, g);
        assert forall|k: int| 0 <= k < n implies #[trigger] reaches(n, f, k) by {
            if k == last {
                assert(f(n - 1) == k);
            } else if k < last {
                assert(reaches((n - 1) as nat, g, k));
                let i = choose|i: int| 0 <= i < n - 1 && #[trigger] g(i) == k;
                assert(f(i) == k);
            } else {
                assert(reaches((n - 1) as nat, g, k - 1));
                let i = choose|i: int| 0 <= i < n - 1 && #[trigger] g(i) == k - 1;
                assert(f(i) == k);
            }
        }
    }
}

/// Equality reads the same from both sides, for documents whose objects
/// keep their names apart.
pub proof fn lemma_json_equal_symmetric(a: JsonValue, b: JsonValue)
    requires
        a.well_formed(),
        b.well_formed(),
        json_equal(a, b),
    ensures
        json_equal(b, a),
    decreases a,
{
    match a {
        JsonValue::Array(x) => {
            let y = b->Array_0;
            lemma_arrays_equal(x, y);
            lemma_arrays_equal(y, x);
            assert forall|i: int| #![trigger y[i]] 0 <= i < y.len() implies json_equal(
                y[i],
                x[i],
            ) by {
                assert(json_equal(x[i], y[i]));
                lemma_json_equal_symmetric(x[i], y[i]);
            }
        },
        JsonValue::Object(x) => {
            let y = b->Object_0;
            lemma_objects_equal(x, y);
            lemma_objects_equal(y, x);
            let f = |i: int|
                choose|j: int|
                    #![trigger y[j]]
                    0 <= j < y.len() && y[j].0 == x[i].0 && json_equal(x[i].1, y[j].1);
            assert forall|i: int| 0 <= i < x.len() implies 0 <= #[trigger] f(i) < x.len() && y[f(
                i,
            )].0 == x[i].0 && json_equal(x[i].1, y[f(i)].1) by {
                assert(has_member(y, x[i].0, x[i].1));
            }
            assert forall|i: int, j: int| 0 <= i < j < x.len() implies #[trigger] f(i)
                != #[trigger] f(j) by {
                assert(y[f(i)].0 == x[i].0);
                assert(y[f(j)].0 == x[j].0);
            }
            lemma_injection_is_onto(x.len(), f);
            assert forall|j: int| #![trigger y[j]] 0 <= j < y.len() implies has_member(
                x,
                y[j].0,
                y[j].1,
            ) by {
                assert(reaches(x.len(), f, j));
                let i = choose|i: int| 0 <= i < x.len() && #[trigger] f(i) == j;
                assert(x[i].0 == y[j].0);
                lemma_json_equal_symmetric(x[i].1, y[j].1);
            }
        },
        _ => {},
    }
}

/// What is equal to a document is equal to all that the document is equal to.
pub proof fn lemma_json_equal_transitive(a: JsonValue, b: JsonValue, c: JsonValue)
    requires
        json_equal(a, b),
        json_equal(b, c),
    ensures
        json_equal(a, c),
    decreases a,
{
    match a {
        JsonValue::Array(x) => {
            let y = b->Array_0;
            let z = c->Array_0;
            lemma_arrays_equal(x, y);
            lemma_arrays_equal(y, z);
            lemma_arrays_equal(x, z);
            assert forall|i: int| #![trigger x[i]] 0 <= i < x.len() implies json_equal(
                x[i],
                z[i],
            ) by {
                assert(json_equal(x[i], y[i]));
                assert(json_equal(y[i], z[i]));
                lemma_json_equal_transitive(x[i], y[i], z[i]);
            }
        },
        JsonValue::Object(x) => {
            let y = b->Object_0;
            let z = c->Object_0;
            lemma_objects_equal(x, y);
            lemma_objects_equal(y, z);
            lemma_objects_equal(x, z);
            assert forall|i: int| #![trigger x[i]] 0 <= i < x.len() implies has_member(
                z,
                x[i].0,
                x[i].1,
            ) by {
                assert(has_member(y, x[i].0, x[i].1));
                let j = choose|j: int|
                    #![trigger y[j]]
                    0 <= j < y.len() && y[j].0 == x[i].0 && json_equal(x[i].1, y[j].1);
                assert(has_member(z, y[j].0, y[j].1));
                let k = choose|k: int|
                    #![trigger z[k]]
                    0 <= k < z.len() && z[k].0 == y[j].0 && json_equal(y[j].1, z[k].1);
                lemma_json_equal_transitive(x[i].1, y[j].1, z[k].1);
            }
        },
        _ => {},
    }
}

} // verus!
