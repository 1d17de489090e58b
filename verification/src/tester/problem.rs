//! The problems that a thing reports.

use vstd::prelude::*;

use crate::json::JsonValue;
use crate::td::NameMap;
use crate::text::same_opt_text;

verus! {

/// The problem that a thing reports for an action.
#[derive(Debug)]
pub struct Problem {
    /// The reference that tells the kind of problem.
    pub type_url: Option<String>,
    /// The HTTP status.
    pub status: Option<u16>,
    /// A summary.
    pub title: Option<String>,
    /// An explanation.
    pub detail: Option<String>,
    /// The reference that tells this occurrence.
    pub instance: Option<String>,
    /// What else the thing tells.
    pub additional_fields: NameMap<JsonValue>,
}

impl Problem {
    /// All fields agree.
    pub open spec fn same(self, other: Self) -> bool {
        &&& crate::text::opt_text(self.type_url) == crate::text::opt_text(other.type_url)
        &&& self.status == other.status
        &&& crate::text::opt_text(self.title) == crate::text::opt_text(other.title)
        &&& crate::text::opt_text(self.detail) == crate::text::opt_text(other.detail)
        &&& crate::text::opt_text(self.instance) == crate::text::opt_text(other.instance)
        &&& same_fields(self.additional_fields, other.additional_fields)
    }

    /// All fields agree, and the additional ones are in the same order.
    pub open spec fn alike(self, other: Self) -> bool {
        &&& self.type_url == other.type_url
        &&& self.status == other.status
        &&& self.title == other.title
        &&& self.detail == other.detail
        &&& self.instance == other.instance
        &&& self.additional_fields.alike(
            other.additional_fields,
            |a: JsonValue, b: JsonValue| a.alike(b),
        )
    }

    /// No additional field occurs twice, and every number in them is one.
    pub open spec fn wf(self) -> bool {
        &&& self.additional_fields.wf()
        &&& forall|i: int|
            0 <= i < self.additional_fields.entries@.len() ==> (
            #[trigger] self.additional_fields.entries@[i]).1.wf()
    }
}

impl Clone for Problem {
    fn clone(&self) -> (r: Self)
        ensures
            self.alike(r),
    {
        let r: Self = Problem {
            type_url: self.type_url.clone(),
            status: self.status,
            title: self.title.clone(),
            detail: self.detail.clone(),
            instance: self.instance.clone(),
            additional_fields: self.additional_fields.clone(),
        };
        assert forall|i: int| 0 <= i < self.additional_fields.entries@.len() implies (
        #[trigger] self.additional_fields.entries@[i]).1.alike(
            r.additional_fields.entries@[i].1,
        ) by {
            let value = self.additional_fields.entries@[i].1;
            crate::json::lemma_alike_itself(value);
            assert(cloned(value, r.additional_fields.entries@[i].1));
        }
        r
    }
}

/// As many fields, and under each name the same value.
pub open spec fn same_fields(left: NameMap<JsonValue>, right: NameMap<JsonValue>) -> bool {
    crate::td::same_maps(left, right, |a: JsonValue, b: JsonValue| a.same(b))
}

/// Whether two sets of fields hold the same values under the same names.
fn equal_fields(left: &NameMap<JsonValue>, right: &NameMap<JsonValue>) -> (same: bool)
    ensures
        same == same_fields(*left, *right),
{
    if left.entries.len() != right.entries.len() {
        return false;
    }
    let mut i: usize = 0;
    while i < left.entries.len()
        invariant
            i <= left.entries.len(),
            left.entries.len() == right.entries.len(),
            forall|k: int|
                0 <= k < i ==> (crate::td::lookup(
                    right.entries@,
                    (#[trigger] left.entries@[k]).0@,
                ) matches Some(value) && left.entries@[k].1.same(value)),
        decreases left.entries.len() - i,
    {
        match right.get(left.entries[i].0.as_str()) {
            Some(value) => {
                if !left.entries[i].1.is_same(value) {
                    return false;
                }
            },
            None => {
                return false;
            },
        }
        i += 1;
    }
    true
}

/// Both problems are missing, or both are there and alike.
pub open spec fn alike_opt_problem(a: Option<Problem>, b: Option<Problem>) -> bool {
    match (a, b) {
        (None, None) => true,
        (Some(a), Some(b)) => a.alike(b),
        _ => false,
    }
}

/// The same problem again, if there is one.
pub(crate) fn copy_of(problem: &Option<Problem>) -> (r: Option<Problem>)
    ensures
        alike_opt_problem(*problem, r),
{
    match problem {
        Some(problem) => Some(problem.clone()),
        None => None,
    }
}

/// Both problems are missing, or both are there and agree.
pub open spec fn same_opt_problem(a: Option<Problem>, b: Option<Problem>) -> bool {
    match (a, b) {
        (None, None) => true,
        (Some(a), Some(b)) => a.same(b),
        _ => false,
    }
}

/// Whether two problems are both missing, or both there and the same.
pub fn eq_opt_http_api_problem(a: &Option<Problem>, b: &Option<Problem>) -> (r: bool)
    ensures
        r == same_opt_problem(*a, *b),
{
    match (a, b) {
        (None, None) => true,
        (Some(a), Some(b)) => {
            same_opt_text(&a.type_url, &b.type_url) && a.status == b.status && same_opt_text(
                &a.title,
                &b.title,
            ) && same_opt_text(&a.detail, &b.detail) && same_opt_text(&a.instance, &b.instance)
                && equal_fields(&a.additional_fields, &b.additional_fields)
        },
        _ => false,
    }
}

/// A problem that is alike agrees, and is as well-formed.
pub proof fn alike_problems_agree(a: Problem, b: Problem)
    requires
        a.wf(),
        a.alike(b),
    ensures
        b.wf(),
        a.same(b),
{
    let x = a.additional_fields;
    let y = b.additional_fields;
    assert forall|i: int, j: int| 0 <= i < j < y.entries@.len() implies 
        #[trigger] y.entries@[i].0@ != #[trigger] y.entries@[j].0@ by {
        assert(x.entries@[i].0@ == y.entries@[i].0@);
        assert(x.entries@[j].0@ == y.entries@[j].0@);
    }
    assert forall|i: int| 0 <= i < y.entries@.len() implies x.entries@[i].1.same(
        (#[trigger] y.entries@[i]).1,
    ) && y.entries@[i].1.wf() by {
        assert(x.entries@[i].0@ == y.entries@[i].0@);
        crate::json::alike_values_are_the_same(x.entries@[i].1, y.entries@[i].1);
    }
    assert forall|i: int| 0 <= i < x.entries@.len() implies (crate::td::lookup(
        y.entries@,
        (#[trigger] x.entries@[i]).0@,
    ) matches Some(value) && x.entries@[i].1.same(value)) by {
        assert(x.entries@[i].0@ == y.entries@[i].0@);
        crate::td::lemma_lookup_first(y.entries@, i);
    }
}

/// Every problem agrees with itself.
pub proof fn problem_equality_is_reflexive(a: Option<Problem>)
    requires
        a matches Some(problem) ==> problem.wf(),
    ensures
        same_opt_problem(a, a),
{
    if let Some(problem) = a {
        let agree = |x: JsonValue, y: JsonValue| x.same(y);
        let fields = problem.additional_fields;
        assert forall|i: int| 0 <= i < fields.entries@.len() implies agree(
            (#[trigger] fields.entries@[i]).1,
            fields.entries@[i].1,
        ) by {
            crate::json::sameness_is_reflexive(fields.entries@[i].1);
        }
        crate::td::laws::lemma_maps_reflexive(fields, agree);
    }
}

/// Whether problems agree goes both ways.
pub proof fn problem_equality_is_symmetric(a: Option<Problem>, b: Option<Problem>)
    requires
        a matches Some(problem) ==> problem.wf(),
        b matches Some(problem) ==> problem.wf(),
        same_opt_problem(a, b),
    ensures
        same_opt_problem(b, a),
{
    if a is Some {
        let agree = |x: JsonValue, y: JsonValue| x.same(y);
        let left = (a->0).additional_fields;
        let right = (b->0).additional_fields;
        assert forall|i: int, j: int|
            0 <= i < left.entries@.len() && 0 <= j < right.entries@.len() && #[trigger] agree(
                left.entries@[i].1,
                right.entries@[j].1,
            ) implies agree(right.entries@[j].1, left.entries@[i].1) by {
            crate::json::sameness_is_symmetric(left.entries@[i].1, right.entries@[j].1);
        }
        crate::td::laws::lemma_maps_symmetric(left, right, agree);
    }
}

/// Whether problems agree carries over.
pub proof fn problem_equality_is_transitive(
    a: Option<Problem>,
    b: Option<Problem>,
    c: Option<Problem>,
)
    requires
        same_opt_problem(a, b),
        same_opt_problem(b, c),
    ensures
        same_opt_problem(a, c),
{
    if a is Some {
        let agree = |x: JsonValue, y: JsonValue| x.same(y);
        let x = (a->0).additional_fields;
        let y = (b->0).additional_fields;
        let z = (c->0).additional_fields;
        assert forall|i: int, j: int, k: int|
            0 <= i < x.entries@.len() && 0 <= j < y.entries@.len() && 0 <= k < z.entries@.len()
                && x.entries@[i].0@ == y.entries@[j].0@ && y.entries@[j].0@ == z.entries@[k].0@
                && #[trigger] agree(x.entries@[i].1, y.entries@[j].1) && #[trigger] agree(
                y.entries@[j].1,
                z.entries@[k].1,
            ) implies agree(x.entries@[i].1, z.entries@[k].1) by {
            crate::json::sameness_is_transitive(
                x.entries@[i].1,
                y.entries@[j].1,
                z.entries@[k].1,
            );
        }
        crate::td::laws::lemma_maps_transitive(x, y, z, agree);
    }
}

/// Two problems agree exactly when both are missing, or both are there with the same
/// reference, status, title, detail and instance, as many additional fields, and the same
/// value under the name of each.
pub proof fn problems_are_compared_field_by_field(a: Problem, b: Problem)
    requires
        b.additional_fields.wf(),
    ensures
        a.same(b) <==> {
            &&& same_text_or_none(a.type_url, b.type_url)
            &&& a.status == b.status
            &&& same_text_or_none(a.title, b.title)
            &&& same_text_or_none(a.detail, b.detail)
            &&& same_text_or_none(a.instance, b.instance)
            &&& JsonValue::Object(a.additional_fields).same(JsonValue::Object(b.additional_fields))
        },
        same_opt_problem(Some(a), Some(b)) <==> a.same(b),
        same_opt_problem(None, None),
        !same_opt_problem(Some(a), None),
        !same_opt_problem(None, Some(b)),
{
}

/// Both texts are missing, or both are there with the same characters.
pub open spec fn same_text_or_none(a: Option<String>, b: Option<String>) -> bool {
    (a is Some <==> b is Some) && (a is Some && b is Some ==> a->0@ == b->0@)
}

} // verus!
