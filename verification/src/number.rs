//! JSON numbers.
//!
//! A [`Number`] is an integer from 0 on, an integer below zero, or any other
//! number, held as JSON text. It is made so that an integer below zero is
//! below zero, and that the text is a number as JSON writes one.

use vstd::prelude::*;
use vstd::std_specs::cmp::PartialEqSpecImpl;
use vstd::utf8::is_ascii_chars;

verus! {

/// What a number is made of, with nothing asked of it yet.
#[derive(Debug, PartialEq, Eq)]
pub enum NumberKind {
    /// An integer from 0 to `u64::MAX`.
    PosInt(u64),
    /// An integer below zero.
    NegInt(i64),
    /// Any other number, as JSON text.
    Float(String),
}

/// The model of a [`NumberKind`], and of a [`Number`].
pub enum NumberValue {
    PosInt(u64),
    NegInt(i64),
    Float(Seq<char>),
}

impl View for NumberKind {
    type V = NumberValue;

    open spec fn view(&self) -> NumberValue {
        match self {
            NumberKind::PosInt(u) => NumberValue::PosInt(*u),
            NumberKind::NegInt(i) => NumberValue::NegInt(*i),
            NumberKind::Float(t) => NumberValue::Float(t@),
        }
    }
}

/// Whether the character is a decimal digit.
pub open spec fn is_digit(c: char) -> bool {
    '0' <= c <= '9'
}

/// The place just past the digits that stand in `s` from place `i` on.
pub open spec fn digits_end(s: Seq<char>, i: int) -> int
    decreases s.len() - i,
{
    if 0 <= i < s.len() && is_digit(s[i]) {
        digits_end(s, i + 1)
    } else {
        i
    }
}

/// The place just past the integer part that starts at place `i`: a single
/// `0`, or digits that start with none. `None` where no digit stands there.
pub open spec fn int_end(s: Seq<char>, i: int) -> Option<int> {
    if 0 <= i < s.len() && is_digit(s[i]) {
        if s[i] == '0' {
            Some(i + 1)
        } else {
            Some(digits_end(s, i))
        }
    } else {
        None
    }
}

/// The place just past the fraction that starts at place `i`, or `i` where
/// none starts there. `None` where a point stands there without a digit
/// behind it.
pub open spec fn frac_end(s: Seq<char>, i: int) -> Option<int> {
    if 0 <= i < s.len() && s[i] == '.' {
        if i + 1 < s.len() && is_digit(s[i + 1]) {
            Some(digits_end(s, i + 1))
        } else {
            None
        }
    } else {
        Some(i)
    }
}

/// The place just past the exponent that starts at place `i`, or `i` where
/// none starts there. `None` where an `e` stands there without a digit
/// behind it and its sign.
pub open spec fn exp_end(s: Seq<char>, i: int) -> Option<int> {
    if 0 <= i < s.len() && (s[i] == 'e' || s[i] == 'E') {
        let j = if i + 1 < s.len() && (s[i + 1] == '+' || s[i + 1] == '-') {
            i + 2
        } else {
            i + 1
        };
        if j < s.len() && is_digit(s[j]) {
            Some(digits_end(s, j))
        } else {
            None
        }
    } else {
        Some(i)
    }
}

/// Whether the text is a number as JSON writes one: a minus sign or none,
/// an integer part, a fraction or none, an exponent or none, and nothing
/// more.
pub open spec fn is_number_text(s: Seq<char>) -> bool {
    let start: int = if s.len() > 0 && s[0] == '-' {
        1
    } else {
        0
    };
    is_ascii_chars(s) && match int_end(s, start) {
        Some(a) => match frac_end(s, a) {
            Some(b) => exp_end(s, b) == Some(s.len() as int),
            None => false,
        },
        None => false,
    }
}

/// Whether a number is as it should be: an integer held as being below
/// zero is below zero, and the text of any other number is JSON's.
pub open spec fn number_valid(n: NumberValue) -> bool {
    match n {
        NumberValue::PosInt(_) => true,
        NumberValue::NegInt(i) => i < 0,
        NumberValue::Float(t) => is_number_text(t),
    }
}

/// The number that stands for the integer `i`: `NegInt` below zero, `PosInt` from zero on.
pub open spec fn number_of_int(i: i64) -> NumberValue {
    if i < 0 {
        NumberValue::NegInt(i)
    } else {
        NumberValue::PosInt(i as u64)
    }
}

/// The integer that `n` stands for, if it is an integer within `i64`.
pub open spec fn number_as_int(n: NumberValue) -> Option<i64> {
    match n {
        NumberValue::PosInt(u) => if u <= i64::MAX { Some(u as i64) } else { None },
        NumberValue::NegInt(i) => Some(i),
        NumberValue::Float(_) => None,
    }
}

/// The number that is made of `kind`: an integer is put where its sign
/// says, and text is taken where it is a number; `None` for any other text.
pub open spec fn number_made(kind: NumberValue) -> Option<NumberValue> {
    match kind {
        NumberValue::PosInt(u) => Some(kind),
        NumberValue::NegInt(i) => Some(number_of_int(i)),
        NumberValue::Float(t) => if is_number_text(t) {
            Some(kind)
        } else {
            None
        },
    }
}

/// Every number that is made is as it should be.
pub proof fn lemma_number_made_valid(kind: NumberValue)
    ensures
        number_made(kind) matches Some(n) ==> number_valid(n),
{
}

/// A JSON number.
#[derive(Debug)]
pub struct Number {
    kind: NumberKind,
}

impl View for Number {
    type V = NumberValue;

    closed spec fn view(&self) -> NumberValue {
        self.kind@
    }
}

/// Whether the byte is a decimal digit.
fn digit(b: u8) -> (r: bool)
    ensures
        r == (48 <= b <= 57),
{
    48 <= b && b <= 57
}

/// The place just past the digits that stand in `bytes` from place `i` on.
fn skip_digits(bytes: &[u8], i: usize, Ghost(s): Ghost<Seq<char>>) -> (r: usize)
    requires
        is_ascii_chars(s),
        bytes@.len() == s.len(),
        forall|k: int| 0 <= k < s.len() ==> bytes@[k] == #[trigger] s[k] as u8,
        i <= bytes@.len(),
    ensures
        r == digits_end(s, i as int),
        i <= r <= bytes@.len(),
{
    let mut j: usize = i;
    while j < bytes.len() && digit(bytes[j])
        invariant
            i <= j <= bytes@.len(),
            is_ascii_chars(s),
            bytes@.len() == s.len(),
            forall|k: int| 0 <= k < s.len() ==> bytes@[k] == #[trigger] s[k] as u8,
            digits_end(s, i as int) == digits_end(s, j as int),
        decreases bytes@.len() - j,
    {
        proof {
            assert(is_digit(s[j as int]));
        }
        j += 1;
    }
    proof {
        if j < bytes@.len() {
            assert(!is_digit(s[j as int]));
        }
    }
    j
}

/// Whether the text is a number as JSON writes one.
pub fn is_number(text: &str) -> (r: bool)
    ensures
        r == is_number_text(text@),
{
    if !text.is_ascii() {
        return false;
    }
    let bytes = text.as_bytes();
    let ghost s = text@;
    proof {
        vstd::string::is_ascii_spec_bytes(text);
        assert(bytes@.len() == s.len());
        assert forall|k: int| 0 <= k < s.len() implies bytes@[k] == #[trigger] s[k] as u8 by {}
    }
    let n = bytes.len();
    let start: usize = if n > 0 && bytes[0] == 45 {
        1
    } else {
        0
    };
    proof {
        if n > 0 {
            assert(bytes@[0] == s[0] as u8);
        }
    }
    if !(start < n && digit(bytes[start])) {
        proof {
            if start < n {
                assert(bytes@[start as int] == s[start as int] as u8);
            }
        }
        return false;
    }
    proof {
        assert(bytes@[start as int] == s[start as int] as u8);
    }
    let a: usize = if bytes[start] == 48 {
        start + 1
    } else {
        skip_digits(bytes, start, Ghost(s))
    };
    let b: usize = if a < n && bytes[a] == 46 {
        proof {
            assert(bytes@[a as int] == s[a as int] as u8);
        }
        if a + 1 < n && digit(bytes[a + 1]) {
            proof {
                assert(bytes@[a + 1] == s[a + 1] as u8);
            }
            skip_digits(bytes, a + 1, Ghost(s))
        } else {
            proof {
                if a + 1 < n {
                    assert(bytes@[a + 1] == s[a + 1] as u8);
                }
            }
            return false;
        }
    } else {
        proof {
            if a < n {
                assert(bytes@[a as int] == s[a as int] as u8);
            }
        }
        a
    };
    let c: usize = if b < n && (bytes[b] == 101 || bytes[b] == 69) {
        proof {
            assert(bytes@[b as int] == s[b as int] as u8);
        }
        let j: usize = if b + 1 < n && (bytes[b + 1] == 43 || bytes[b + 1] == 45) {
            b + 2
        } else {
            b + 1
        };
        proof {
            if b + 1 < n {
                assert(bytes@[b + 1] == s[b + 1] as u8);
            }
        }
        if j < n && digit(bytes[j]) {
            proof {
                assert(bytes@[j as int] == s[j as int] as u8);
            }
            skip_digits(bytes, j, Ghost(s))
        } else {
            proof {
                if j < n {
                    assert(bytes@[j as int] == s[j as int] as u8);
                }
            }
            return false;
        }
    } else {
        proof {
            if b < n {
                assert(bytes@[b as int] == s[b as int] as u8);
            }
        }
        b
    };
    c == n
}

impl Number {
    #[verifier::type_invariant]
    spec fn valid(&self) -> bool {
        number_valid(self@)
    }

    /// The number that is made of `kind`. An integer is put where its sign
    /// says; text is taken where it is a number as JSON writes one, and
    /// refused where it is not.
    pub fn new(kind: NumberKind) -> (r: Option<Number>)
        ensures
            match r {
                Some(number) => number_made(kind@) == Some(number@),
                None => number_made(kind@) is None,
            },
    {
        match kind {
            NumberKind::PosInt(u) => Some(Number { kind: NumberKind::PosInt(u) }),
            NumberKind::NegInt(i) => Some(Self::from_i64(i)),
            NumberKind::Float(text) => {
                if is_number(text.as_str()) {
                    Some(Number { kind: NumberKind::Float(text) })
                } else {
                    None
                }
            },
        }
    }

    /// The number for a signed integer.
    pub fn from_i64(i: i64) -> (r: Number)
        ensures
            r@ == number_of_int(i),
    {
        if i < 0 {
            Number { kind: NumberKind::NegInt(i) }
        } else {
            Number { kind: NumberKind::PosInt(i as u64) }
        }
    }

    /// The number for an unsigned integer.
    pub fn from_u64(u: u64) -> (r: Number)
        ensures
            r@ == NumberValue::PosInt(u),
    {
        Number { kind: NumberKind::PosInt(u) }
    }

    /// The number that holds `text`, where `text` is a number as JSON writes one.
    pub fn from_text(text: &str) -> (r: Option<Number>)
        ensures
            match r {
                Some(number) => is_number_text(text@) && number@ == NumberValue::Float(text@),
                None => !is_number_text(text@),
            },
    {
        if is_number(text) {
            Some(Number { kind: NumberKind::Float(text.to_owned()) })
        } else {
            None
        }
    }

    /// What the number is made of. It is as it should be.
    pub fn kind(&self) -> (r: &NumberKind)
        ensures
            r@ == self@,
            number_valid(self@),
    {
        proof {
            use_type_invariant(self);
        }
        &self.kind
    }

    /// The value as an `i64`, where it is an integer in that range.
    pub fn as_i64(&self) -> (r: Option<i64>)
        ensures
            r == number_as_int(self@),
    {
        match &self.kind {
            NumberKind::PosInt(u) => if *u <= i64::MAX as u64 { Some(*u as i64) } else { None },
            NumberKind::NegInt(i) => Some(*i),
            NumberKind::Float(_) => None,
        }
    }
}

impl PartialEq for Number {
    fn eq(&self, other: &Number) -> (r: bool) {
        match (&self.kind, &other.kind) {
            (NumberKind::PosInt(a), NumberKind::PosInt(b)) => *a == *b,
            (NumberKind::NegInt(a), NumberKind::NegInt(b)) => *a == *b,
            (NumberKind::Float(a), NumberKind::Float(b)) => *a == *b,
            _ => false,
        }
    }
}

impl PartialEqSpecImpl for Number {
    open spec fn obeys_eq_spec() -> bool {
        true
    }

    open spec fn eq_spec(&self, other: &Number) -> bool {
        self@ == other@
    }
}

impl Eq for Number {

}

impl Clone for Number {
    fn clone(&self) -> (r: Number)
        ensures
            r@ == self@,
    {
        proof {
            use_type_invariant(self);
        }
        match &self.kind {
            NumberKind::PosInt(u) => Number { kind: NumberKind::PosInt(*u) },
            NumberKind::NegInt(i) => Number { kind: NumberKind::NegInt(*i) },
            NumberKind::Float(t) => Number { kind: NumberKind::Float(t.clone()) },
        }
    }
}

} // verus!
