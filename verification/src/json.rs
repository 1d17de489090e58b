//! JSON values as they are compared.

use vstd::prelude::*;

use crate::number::Binary64;
use crate::td::{CowStr, NameMap};
use crate::text::same_text;

verus! {

/// A JSON number.
#[derive(Clone, Copy, Debug)]
pub enum JsonNumber {
    /// An integer that is not negative.
    PosInt(u64),
    /// A negative integer.
    NegInt(i64),
    /// A number with a fraction or an exponent.
    Float(Binary64),
}

impl JsonNumber {
    /// The same kind of number and the same value.
    pub open spec fn same(self, other: Self) -> bool {
        match (self, other) {
            (JsonNumber::PosInt(a), JsonNumber::PosInt(b)) => a == b,
            (JsonNumber::NegInt(a), JsonNumber::NegInt(b)) => a == b,
            (JsonNumber::Float(a), JsonNumber::Float(b)) => a.equals(b),
            _ => false,
        }
    }

    /// It stands for a number at all.
    pub open spec fn is_number(self) -> bool {
        self matches JsonNumber::Float(x) ==> !x.is_nan()
    }

    /// Whether two numbers are the same.
    pub fn is_same(&self, other: &Self) -> (r: bool)
        ensures
            r == self.same(*other),
    {
        match (self, other) {
            (JsonNumber::PosInt(a), JsonNumber::PosInt(b)) => *a == *b,
            (JsonNumber::NegInt(a), JsonNumber::NegInt(b)) => *a == *b,
            (JsonNumber::Float(a), JsonNumber::Float(b)) => *a == *b,
            _ => false,
        }
    }
}

/// A JSON value.
#[derive(Debug)]
pub enum JsonValue {
    /// Nothing.
    Null,
    /// A truth value.
    Bool(bool),
    /// A number.
    Number(JsonNumber),
    /// A text.
    Text(String),
    /// Values in order.
    Array(Vec<JsonValue>),
    /// Values by name.
    Object(NameMap<JsonValue>),
}

impl JsonValue {
    /// The same value; the members of an object are compared by name.
    pub open spec fn same(self, other: Self) -> bool
        decreases self,
    {
        match (self, other) {
            (JsonValue::Null, JsonValue::Null) => true,
            (JsonValue::Bool(a), JsonValue::Bool(b)) => a == b,
            (JsonValue::Number(a), JsonValue::Number(b)) => a.same(b),
            (JsonValue::Text(a), JsonValue::Text(b)) => a@ == b@,
            (JsonValue::Array(a), JsonValue::Array(b)) => {
                &&& a@.len() == b@.len()
                &&& forall|i: int| 0 <= i < a@.len() ==> (#[trigger] a@[i]).same(b@[i])
            },
            (JsonValue::Object(a), JsonValue::Object(b)) => {
                &&& a.entries@.len() == b.entries@.len()
                &&& forall|i: int|
                    0 <= i < a.entries@.len() ==> (crate::td::lookup(
                        b.entries@,
                        (#[trigger] a.entries@[i]).0@,
                    ) matches Some(value) && a.entries@[i].1.same(value))
            },
            _ => false,
        }
    }

    /// No member name occurs twice in an object, and every number is one.
    pub open spec fn wf(self) -> bool
        decreases self,
    {
        match self {
            JsonValue::Number(n) => n.is_number(),
            JsonValue::Array(a) => forall|i: int|
                0 <= i < a@.len() ==> (#[trigger] a@[i]).wf(),
            JsonValue::Object(o) => {
                &&& o.wf()
                &&& forall|i: int| 0 <= i < o.entries@.len() ==> (#[trigger] o.entries@[i]).1.wf()
            },
            _ => true,
        }
    }

    /// The same value, with the members of objects in the same order.
    pub open spec fn alike(self, other: Self) -> bool
        decreases self,
    {
        match (self, other) {
            (JsonValue::Null, JsonValue::Null) => true,
            (JsonValue::Bool(a), JsonValue::Bool(b)) => a == b,
            (JsonValue::Number(a), JsonValue::Number(b)) => a == b,
            (JsonValue::Text(a), JsonValue::Text(b)) => a@ == b@,
            (JsonValue::Array(a), JsonValue::Array(b)) => {
                &&& a@.len() == b@.len()
                &&& forall|i: int| 0 <= i < a@.len() ==> (#[trigger] a@[i]).alike(b@[i])
            },
            (JsonValue::Object(a), JsonValue::Object(b)) => {
                &&& a.entries@.len() == b.entries@.len()
                &&& forall|i: int|
                    0 <= i < a.entries@.len() ==> {
                        &&& (#[trigger] a.entries@[i]).0@ == b.entries@[i].0@
                        &&& a.entries@[i].1.alike(b.entries@[i].1)
                    }
            },
            _ => false,
        }
    }

    fn copied(&self) -> (r: Self)
        ensures
            self.alike(r),
        decreases self,
    {
        match self {
            JsonValue::Null => JsonValue::Null,
            JsonValue::Bool(b) => JsonValue::Bool(*b),
            JsonValue::Number(n) => JsonValue::Number(*n),
            JsonValue::Text(text) => JsonValue::Text(text.clone()),
            JsonValue::Array(a) => {
                let mut values: Vec<JsonValue> = Vec::new();
                let mut i: usize = 0;
                while i < a.len()
                    invariant
                        i <= a.len(),
                        values.len() == i,
                        self == (JsonValue::Array(*a)),
                        forall|k: int| 0 <= k < i ==> (#[trigger] a@[k]).alike(values@[k]),
                    decreases a.len() - i,
                {
                    assert(decreases_to!(*self => self->Array_0));
                    assert(decreases_to!(a@ => a@[i as int]));
                    let value: JsonValue = a[i].copied();
                    values.push(value);
                    i += 1;
                }
                JsonValue::Array(values)
            },
            JsonValue::Object(o) => {
                let mut entries: Vec<(CowStr, JsonValue)> = Vec::new();
                let mut i: usize = 0;
                while i < o.entries.len()
                    invariant
                        i <= o.entries.len(),
                        entries.len() == i,
                        self == (JsonValue::Object(*o)),
                        forall|k: int|
                            0 <= k < i ==> {
                                &&& (#[trigger] o.entries@[k]).0@ == entries@[k].0@
                                &&& o.entries@[k].1.alike(entries@[k].1)
                            },
                    decreases o.entries.len() - i,
                {
                    assert(decreases_to!(*self => self->Object_0));
                    let name: CowStr = o.entries[i].0.clone();
                    let value: JsonValue = o.entries[i].1.copied();
                    entries.push((name, value));
                    i += 1;
                }
                JsonValue::Object(NameMap { entries })
            },
        }
    }

    /// Whether two values are the same.
    pub fn is_same(&self, other: &Self) -> (r: bool)
        ensures
            r == self.same(*other),
        decreases self,
    {
        match (self, other) {
            (JsonValue::Null, JsonValue::Null) => true,
            (JsonValue::Bool(a), JsonValue::Bool(b)) => *a == *b,
            (JsonValue::Number(a), JsonValue::Number(b)) => a.is_same(b),
            (JsonValue::Text(a), JsonValue::Text(b)) => same_text(a.as_str(), b.as_str()),
            (JsonValue::Array(a), JsonValue::Array(b)) => {
                if a.len() != b.len() {
                    return false;
                }
                let mut i: usize = 0;
                while i < a.len()
                    invariant
                        i <= a.len(),
                        a.len() == b.len(),
                        self == (JsonValue::Array(*a)),
                        other == (JsonValue::Array(*b)),
                        forall|k: int| 0 <= k < i ==> (#[trigger] a@[k]).same(b@[k]),
                    decreases a.len() - i,
                {
                    assert(decreases_to!(*self => self->Array_0));
                    assert(decreases_to!(a@ => a@[i as int]));
                    if !a[i].is_same(&b[i]) {
                        assert(!a@[i as int].same(b@[i as int]));
                        return false;
                    }
                    i += 1;
                }
                true
            },
            (JsonValue::Object(a), JsonValue::Object(b)) => {
                if a.entries.len() != b.entries.len() {
                    return false;
                }
                let mut i: usize = 0;
                while i < a.entries.len()
                    invariant
                        i <= a.entries.len(),
                        a.entries.len() == b.entries.len(),
                        self == (JsonValue::Object(*a)),
                        other == (JsonValue::Object(*b)),
                        forall|k: int|
                            0 <= k < i ==> (crate::td::lookup(
                                b.entries@,
                                (#[trigger] a.entries@[k]).0@,
                            ) matches Some(value) && a.entries@[k].1.same(value)),
                    decreases a.entries.len() - i,
                {
                    assert(decreases_to!(*self => self->Object_0));
                    match b.get(a.entries[i].0.as_str()) {
                        Some(value) => {
                            if !a.entries[i].1.is_same(value) {
                                return false;
                            }
                        },
                        None => {
                            return false;
                        },
                    }
                    i += 1;
                }
                true
            },
            _ => false,
        }
    }
}

impl Clone for JsonValue {
    fn clone(&self) -> (r: Self)
        ensures
            self.alike(r),
    {
        self.copied()
    }
}

/// Every value is alike itself.
pub proof fn lemma_alike_itself(a: JsonValue)
    ensures
        a.alike(a),
    decreases a,
{
    match a {
        JsonValue::Array(x) => {
            assert forall|i: int| 0 <= i < x@.len() implies (#[trigger] x@[i]).alike(x@[i]) by {
                assert(decreases_to!(a => a->Array_0));
                assert(decreases_to!(x@ => x@[i]));
                lemma_alike_itself(x@[i]);
            }
        },
        JsonValue::Object(x) => {
            assert forall|i: int| 0 <= i < x.entries@.len() implies (
            #[trigger] x.entries@[i]).1.alike(x.entries@[i].1) by {
                assert(decreases_to!(a => a->Object_0));
                assert(decreases_to!(x => x.entries@[i].1));
                lemma_alike_itself(x.entries@[i].1);
            }
        },
        _ => {},
    }
}

/// A value that is alike is the same value, and as well-formed.
pub proof fn alike_values_are_the_same(a: JsonValue, b: JsonValue)
    requires
        a.wf(),
        a.alike(b),
    ensures
        b.wf(),
        a.same(b),
    decreases a,
{
    match (a, b) {
        (JsonValue::Array(x), JsonValue::Array(y)) => {
            assert forall|i: int| 0 <= i < x@.len() implies (#[trigger] x@[i]).same(y@[i])
                && y@[i].wf() by {
                assert(decreases_to!(a => a->Array_0));
                assert(decreases_to!(x@ => x@[i]));
                alike_values_are_the_same(x@[i], y@[i]);
            }
            assert forall|i: int| 0 <= i < y@.len() implies (#[trigger] y@[i]).wf() by {
                assert(x@[i].same(y@[i]) && y@[i].wf());
            }
        },
        (JsonValue::Object(x), JsonValue::Object(y)) => {
            assert forall|i: int, j: int| 0 <= i < j < y.entries@.len() implies 
                #[trigger] y.entries@[i].0@ != #[trigger] y.entries@[j].0@ by {
                assert(x.entries@[i].0@ == y.entries@[i].0@);
                assert(x.entries@[j].0@ == y.entries@[j].0@);
            }
            assert forall|i: int| 0 <= i < x.entries@.len() implies x.entries@[i].1.same(
                (#[trigger] y.entries@[i]).1,
            ) && y.entries@[i].1.wf() by {
                assert(x.entries@[i].0@ == y.entries@[i].0@);
                assert(decreases_to!(a => a->Object_0));
                assert(decreases_to!(x => x.entries@[i].1));
                alike_values_are_the_same(x.entries@[i].1, y.entries@[i].1);
            }
            assert forall|i: int| 0 <= i < x.entries@.len() implies (crate::td::lookup(
                y.entries@,
                (#[trigger] x.entries@[i]).0@,
            ) matches Some(value) && x.entries@[i].1.same(value)) by {
                assert(x.entries@[i].0@ == y.entries@[i].0@);
                crate::td::lemma_lookup_first(y.entries@, i);
            }
        },
        _ => {},
    }
}

/// Every value is the same as itself.
pub proof fn sameness_is_reflexive(a: JsonValue)
    requires
        a.wf(),
    ensures
        a.same(a),
    decreases a,
{
    match a {
        JsonValue::Array(x) => {
            assert forall|i: int| 0 <= i < x@.len() implies (#[trigger] x@[i]).same(x@[i]) by {
                assert(decreases_to!(a => a->Array_0));
                assert(decreases_to!(x@ => x@[i]));
                sameness_is_reflexive(x@[i]);
            }
        },
        JsonValue::Object(x) => {
            assert forall|i: int| 0 <= i < x.entries@.len() implies (crate::td::lookup(
                x.entries@,
                (#[trigger] x.entries@[i]).0@,
            ) matches Some(value) && x.entries@[i].1.same(value)) by {
                crate::td::lemma_lookup_first(x.entries@, i);
                assert(decreases_to!(a => a->Object_0));
                assert(decreases_to!(x => x.entries@[i].1));
                sameness_is_reflexive(x.entries@[i].1);
            }
        },
        _ => {},
    }
}

/// Whether values are the same goes both ways.
pub proof fn sameness_is_symmetric(a: JsonValue, b: JsonValue)
    requires
        a.wf(),
        b.wf(),
        a.same(b),
    ensures
        b.same(a),
    decreases a,
{
    match (a, b) {
        (JsonValue::Array(x), JsonValue::Array(y)) => {
            assert forall|i: int| 0 <= i < y@.len() implies (#[trigger] y@[i]).same(x@[i]) by {
                assert(decreases_to!(a => a->Array_0));
                assert(decreases_to!(x@ => x@[i]));
                assert(x@[i].same(y@[i]));
                sameness_is_symmetric(x@[i], y@[i]);
            }
        },
        (JsonValue::Object(x), JsonValue::Object(y)) => {
            assert forall|j: int| 0 <= j < y.entries@.len() implies (crate::td::lookup(
                x.entries@,
                (#[trigger] y.entries@[j]).0@,
            ) matches Some(value) && y.entries@[j].1.same(value)) by {
                let i = crate::td::laws::lemma_names_are_shared(x, y, j);
                assert(x.entries@[i].1.same(y.entries@[j].1));
                assert(decreases_to!(a => a->Object_0));
                assert(decreases_to!(x => x.entries@[i].1));
                sameness_is_symmetric(x.entries@[i].1, y.entries@[j].1);
            }
        },
        _ => {},
    }
}

/// Whether values are the same carries over.
pub proof fn sameness_is_transitive(a: JsonValue, b: JsonValue, c: JsonValue)
    requires
        a.same(b),
        b.same(c),
    ensures
        a.same(c),
    decreases a,
{
    match (a, b, c) {
        (JsonValue::Array(x), JsonValue::Array(y), JsonValue::Array(z)) => {
            assert forall|i: int| 0 <= i < x@.len() implies (#[trigger] x@[i]).same(z@[i]) by {
                assert(decreases_to!(a => a->Array_0));
                assert(decreases_to!(x@ => x@[i]));
                assert(x@[i].same(y@[i]));
                assert(y@[i].same(z@[i]));
                sameness_is_transitive(x@[i], y@[i], z@[i]);
            }
        },
        (JsonValue::Object(x), JsonValue::Object(y), JsonValue::Object(z)) => {
            assert forall|i: int| 0 <= i < x.entries@.len() implies (crate::td::lookup(
                z.entries@,
                (#[trigger] x.entries@[i]).0@,
            ) matches Some(value) && x.entries@[i].1.same(value)) by {
                let name = x.entries@[i].0@;
                let j = crate::td::lemma_lookup_some(y.entries@, name);
                assert(y.entries@[j].0@ == name);
                assert(decreases_to!(a => a->Object_0));
                assert(decreases_to!(x => x.entries@[i].1));
                sameness_is_transitive(
                    x.entries@[i].1,
                    y.entries@[j].1,
                    crate::td::lookup(z.entries@, name)->0,
                );
            }
        },
        _ => {},
    }
}

/// Values are the same only where they are of the same kind: two truth values that are equal,
/// two numbers of the same kind with the same value, two texts with the same characters, two
/// arrays whose values are the same one by one, and two objects with as many members whose
/// values are the same under each name.
pub proof fn values_are_compared_by_kind(a: JsonValue, b: JsonValue)
    requires
        b matches JsonValue::Object(object) ==> object.wf(),
    ensures
        match a {
            JsonValue::Null => a.same(b) <==> b is Null,
            JsonValue::Bool(x) => a.same(b) <==> b == JsonValue::Bool(x),
            JsonValue::Number(x) => a.same(b) <==> (b matches JsonValue::Number(y) && match (x, y) {
                (JsonNumber::PosInt(m), JsonNumber::PosInt(n)) => m == n,
                (JsonNumber::NegInt(m), JsonNumber::NegInt(n)) => m == n,
                (JsonNumber::Float(m), JsonNumber::Float(n)) => m.equals(n),
                _ => false,
            }),
            JsonValue::Text(x) => a.same(b) <==> (b matches JsonValue::Text(y) && x@ == y@),
            JsonValue::Array(x) => a.same(b) <==> (b matches JsonValue::Array(y) && x@.len()
                == y@.len() && forall|i: int|
                0 <= i < x@.len() ==> (#[trigger] x@[i]).same(y@[i])),
            JsonValue::Object(x) => a.same(b) <==> (b matches JsonValue::Object(y)
                && x.entries@.len() == y.entries@.len() && forall|i: int|
                0 <= i < x.entries@.len() ==> has_member(
                    y,
                    (#[trigger] x.entries@[i]).0@,
                    x.entries@[i].1,
                )),
        },
{
    if let (JsonValue::Object(x), JsonValue::Object(y)) = (a, b) {
        assert forall|i: int| 0 <= i < x.entries@.len() implies has_member(
            y,
            (#[trigger] x.entries@[i]).0@,
            x.entries@[i].1,
        ) == (crate::td::lookup(y.entries@, x.entries@[i].0@) matches Some(value)
            && x.entries@[i].1.same(value)) by {
            let name = x.entries@[i].0@;
            if crate::td::lookup(y.entries@, name) is Some {
                let j = crate::td::lemma_lookup_some(y.entries@, name);
                assert(y.entries@[j].0@ == name);
            }
            if has_member(y, name, x.entries@[i].1) {
                let j = choose|j: int|
                    0 <= j < y.entries@.len() && (#[trigger] y.entries@[j]).0@ == name
                        && x.entries@[i].1.same(y.entries@[j].1);
                crate::td::lemma_lookup_first(y.entries@, j);
            }
        }
    }
}

/// A value stands under a name and is the same as a given one.
pub open spec fn has_member(object: NameMap<JsonValue>, name: Seq<char>, value: JsonValue) -> bool {
    exists|j: int|
        0 <= j < object.entries@.len() && (#[trigger] object.entries@[j]).0@ == name && value.same(
            object.entries@[j].1,
        )
}

} // verus!
