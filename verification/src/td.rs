//! A Thing Description.

use std::borrow::Cow;
use vstd::prelude::*;
use vstd::std_specs::cmp::PartialEqSpec;

use crate::text::same_text;

pub mod field_laws;
pub mod laws;
pub mod schema;

pub use schema::{
    are_equivalent_opt_data_schema, DataSchema, DataSchemaSubtype, IntegerDataSchema,
    NumberDataSchema, ObjectDataSchema, PartialDataSchema, PartialDataSchemaDefaults,
};

verus! {

/// A simple wrapper to a `Cow<'static, str>`.
#[derive(Debug, Eq, Hash, Ord, PartialOrd)]
pub struct CowStr(pub Cow<'static, str>);

impl View for CowStr {
    type V = Seq<char>;

    open spec fn view(&self) -> Seq<char> {
        self.0@
    }
}

impl CowStr {
    /// The text.
    pub fn as_str(&self) -> (text: &str)
        ensures
            text@ == self@,
    {
        match &self.0 {
            Cow::Borrowed(text) => text,
            Cow::Owned(text) => text.as_str(),
        }
    }
}

impl Clone for CowStr {
    fn clone(&self) -> (r: Self)
        ensures
            r == *self,
    {
        match &self.0 {
            Cow::Borrowed(text) => CowStr(Cow::Borrowed(text)),
            Cow::Owned(text) => CowStr(Cow::Owned(text.clone())),
        }
    }
}

impl Default for CowStr {
    fn default() -> (r: Self)
        ensures
            r@ == Seq::<char>::empty(),
    {
        CowStr(Cow::Owned(String::new()))
    }
}

impl From<&'static str> for CowStr {
    fn from(s: &'static str) -> (r: Self) {
        CowStr(Cow::Borrowed(s))
    }
}

impl vstd::std_specs::convert::FromSpecImpl<&'static str> for CowStr {
    open spec fn obeys_from_spec() -> bool {
        true
    }

    open spec fn from_spec(s: &'static str) -> Self {
        CowStr(Cow::Borrowed(s))
    }
}

impl From<String> for CowStr {
    fn from(s: String) -> (r: Self) {
        CowStr(Cow::Owned(s))
    }
}

impl vstd::std_specs::convert::FromSpecImpl<String> for CowStr {
    open spec fn obeys_from_spec() -> bool {
        true
    }

    open spec fn from_spec(s: String) -> Self {
        CowStr(Cow::Owned(s))
    }
}

impl std::ops::Deref for CowStr {
    type Target = Cow<'static, str>;

    fn deref(&self) -> (r: &Cow<'static, str>)
        ensures
            *r == self.0,
    {
        &self.0
    }
}

impl PartialEq for CowStr {
    fn eq(&self, other: &Self) -> (r: bool) {
        same_text(self.as_str(), other.as_str())
    }
}

impl vstd::std_specs::cmp::PartialEqSpecImpl for CowStr {
    open spec fn obeys_eq_spec() -> bool {
        true
    }

    open spec fn eq_spec(&self, other: &Self) -> bool {
        self@ == other@
    }
}

/// Possible security schemes.
#[derive(Debug, Clone, Copy, Eq, PartialEq, Structural)]
pub enum SecurityScheme {
    /// No security scheme.
    NoSecurityScheme,
}

/// The security scheme definitions.
#[derive(Debug, Eq)]
pub struct SecuritySchemeDefinition {
    /// The security scheme.
    pub scheme: SecurityScheme,
}

impl PartialEq for SecuritySchemeDefinition {
    fn eq(&self, other: &Self) -> (r: bool) {
        self.scheme == other.scheme
    }
}

impl vstd::std_specs::cmp::PartialEqSpecImpl for SecuritySchemeDefinition {
    open spec fn obeys_eq_spec() -> bool {
        true
    }

    open spec fn eq_spec(&self, other: &Self) -> bool {
        self.scheme == other.scheme
    }
}

/// A form operation.
#[derive(Clone, Copy, Debug, Eq, PartialEq, Structural)]
pub enum Operation {
    /// Read a property.
    ReadProperty,
    /// Write a property.
    WriteProperty,
    /// Observe a property.
    ObserveProperty,
    /// Unobserve a property.
    UnobserveProperty,
    /// Invoke an action.
    InvokeAction,
    /// Query an action.
    QueryAction,
    /// Cancel an action.
    CancelAction,
    /// Subscribe to an event.
    SubscribeEvent,
    /// Unsubscribe from an event.
    UnsubscribeEvent,
    /// Read all properties.
    ReadAllProperties,
    /// Write to all properties.
    WriteAllProperties,
    /// Read multiple properties.
    ReadMultipleProperties,
    /// Write to multiple properties.
    WriteMultipleProperties,
    /// Observer all properties.
    ObserveAllProperties,
    /// Unobserve all properties.
    UnobserveAllProperties,
    /// Subscribe to all events.
    SubscribeAllEvents,
    /// Unsubscribe from all events.
    UnsubscribeAllEvents,
    /// Query all actions.
    QueryAllActions,
}

/// Whether two lists hold the same operations in the same order.
pub fn same_operations(left: &[Operation], right: &[Operation]) -> (same: bool)
    ensures
        same == (left@ == right@),
{
    if left.len() != right.len() {
        return false;
    }
    let mut i: usize = 0;
    while i < left.len()
        invariant
            i <= left.len(),
            left.len() == right.len(),
            forall|k: int| 0 <= k < i ==> left[k] == right[k],
        decreases left.len() - i,
    {
        if left[i] != right[i] {
            return false;
        }
        i += 1;
    }
    assert(left@ =~= right@);
    true
}

/// Whether an operation is in a list.
pub fn has_operation(operations: &[Operation], operation: Operation) -> (has: bool)
    ensures
        has == operations@.contains(operation),
{
    let mut i: usize = 0;
    while i < operations.len()
        invariant
            i <= operations.len(),
            forall|k: int| 0 <= k < i ==> operations[k] != operation,
        decreases operations.len() - i,
    {
        if operations[i] == operation {
            assert(operations@[i as int] == operation);
            return true;
        }
        i += 1;
    }
    false
}

/// A wrapper to represent one or many elements using a [`Vec`].
#[derive(Clone, Eq, PartialEq, Debug)]
pub struct OneOrMany<T>(pub Vec<T>);

impl<T> OneOrMany<T> {
    /// The elements.
    pub fn as_slice(&self) -> (elements: &[T])
        ensures
            elements@ == self.0@,
    {
        self.0.as_slice()
    }
}

impl<T> AsRef<[T]> for OneOrMany<T> {
    fn as_ref(&self) -> (r: &[T])
        ensures
            r@ == self.0@,
    {
        self.0.as_slice()
    }
}

impl<T> std::ops::Deref for OneOrMany<T> {
    type Target = [T];

    fn deref(&self) -> (r: &[T])
        ensures
            r@ == self.0@,
    {
        self.0.as_slice()
    }
}

impl<T> From<Vec<T>> for OneOrMany<T> {
    fn from(vec: Vec<T>) -> (r: Self) {
        OneOrMany(vec)
    }
}

impl<T> vstd::std_specs::convert::FromSpecImpl<Vec<T>> for OneOrMany<T> {
    open spec fn obeys_from_spec() -> bool {
        true
    }

    open spec fn from_spec(vec: Vec<T>) -> Self {
        OneOrMany(vec)
    }
}

impl<T> From<T> for OneOrMany<T> {
    fn from(elem: T) -> (r: Self)
        ensures
            r.0@ == seq![elem],
    {
        OneOrMany(vec![elem])
    }
}

impl<T> vstd::std_specs::convert::FromSpecImpl<T> for OneOrMany<T> {
    open spec fn obeys_from_spec() -> bool {
        false
    }

    open spec fn from_spec(elem: T) -> Self {
        arbitrary()
    }
}

/// The texts of two lists agree, one by one.
pub open spec fn same_texts(left: Seq<CowStr>, right: Seq<CowStr>) -> bool {
    &&& left.len() == right.len()
    &&& forall|i: int| 0 <= i < left.len() ==> #[trigger] left[i]@ == right[i]@
}

/// A list holds a text.
pub open spec fn lists(list: Seq<CowStr>, text: Seq<char>) -> bool {
    exists|i: int| 0 <= i < list.len() && #[trigger] list[i]@ == text
}

/// Two lists hold the same texts, in any order and number.
pub open spec fn same_members(left: Seq<CowStr>, right: Seq<CowStr>) -> bool {
    forall|text: Seq<char>| #[trigger] lists(left, text) <==> lists(right, text)
}

/// Whether a list holds a text.
pub fn has_text(list: &Vec<CowStr>, text: &str) -> (has: bool)
    ensures
        has == lists(list@, text@),
{
    let mut i: usize = 0;
    while i < list.len()
        invariant
            i <= list.len(),
            forall|k: int| 0 <= k < i ==> #[trigger] list[k]@ != text@,
        decreases list.len() - i,
    {
        if same_text(list[i].as_str(), text) {
            assert(list@[i as int]@ == text@);
            return true;
        }
        i += 1;
    }
    false
}

/// Whether every text of a list is also in another.
pub fn all_listed(list: &Vec<CowStr>, other: &Vec<CowStr>) -> (all: bool)
    ensures
        all == (forall|text: Seq<char>| #[trigger] lists(list@, text) ==> lists(other@, text)),
{
    let mut i: usize = 0;
    while i < list.len()
        invariant
            i <= list.len(),
            forall|k: int| 0 <= k < i ==> lists(other@, #[trigger] list[k]@),
        decreases list.len() - i,
    {
        if !has_text(other, list[i].as_str()) {
            assert(lists(list@, list@[i as int]@));
            return false;
        }
        i += 1;
    }
    assert forall|text: Seq<char>| #[trigger] lists(list@, text) implies lists(other@, text) by {
        let k = choose|k: int| 0 <= k < list@.len() && #[trigger] list@[k]@ == text;
        assert(lists(other@, list[k]@));
    }
    true
}

/// Whether two lists of texts agree, one by one.
fn equal_texts(left: &Vec<CowStr>, right: &Vec<CowStr>) -> (same: bool)
    ensures
        same == same_texts(left@, right@),
{
    if left.len() != right.len() {
        return false;
    }
    let mut i: usize = 0;
    while i < left.len()
        invariant
            i <= left.len(),
            left.len() == right.len(),
            forall|k: int| 0 <= k < i ==> #[trigger] left[k]@ == right[k]@,
        decreases left.len() - i,
    {
        if left[i] != right[i] {
            assert(left@[i as int]@ != right@[i as int]@);
            return false;
        }
        i += 1;
    }
    true
}

/// The value of the first entry under a name.
pub open spec fn lookup<V>(entries: Seq<(CowStr, V)>, name: Seq<char>) -> Option<V>
    decreases entries.len(),
{
    if entries.len() == 0 {
        None
    } else if entries[0].0@ == name {
        Some(entries[0].1)
    } else {
        lookup(entries.drop_first(), name)
    }
}

/// Values by name, in the order in which they are walked.
///
/// No two entries of a well-formed map have the same name.
#[derive(Debug, Eq)]
pub struct NameMap<V> {
    /// The entries.
    pub entries: Vec<(CowStr, V)>,
}

impl<V: Clone> Clone for NameMap<V> {
    fn clone(&self) -> (r: Self)
        ensures
            self.alike(r, |a: V, b: V| cloned(a, b)),
            self.wf() ==> r.wf(),
    {
        let mut entries: Vec<(CowStr, V)> = Vec::new();
        let mut i: usize = 0;
        while i < self.entries.len()
            invariant
                i <= self.entries.len(),
                entries.len() == i,
                forall|k: int|
                    0 <= k < i ==> {
                        &&& (#[trigger] self.entries@[k]).0@ == entries@[k].0@
                        &&& cloned(self.entries@[k].1, entries@[k].1)
                    },
            decreases self.entries.len() - i,
        {
            let name: CowStr = self.entries[i].0.clone();
            let value: V = self.entries[i].1.clone();
            entries.push((name, value));
            i += 1;
        }
        let r: Self = NameMap { entries };
        assert(self.wf() ==> r.wf()) by {
            if self.wf() {
                assert forall|i: int, j: int| 0 <= i < j < r.entries@.len() implies 
                    #[trigger] r.entries@[i].0@ != #[trigger] r.entries@[j].0@ by {
                    assert(self.entries@[i].0@ == r.entries@[i].0@);
                    assert(self.entries@[j].0@ == r.entries@[j].0@);
                }
            }
        }
        r
    }
}

impl<V> NameMap<V> {
    /// No name occurs twice.
    pub open spec fn wf(self) -> bool {
        forall|i: int, j: int|
            0 <= i < j < self.entries@.len() ==> #[trigger] self.entries@[i].0@
                != #[trigger] self.entries@[j].0@
    }

    /// The map from names to values.
    pub open spec fn view(self) -> Map<Seq<char>, V> {
        Map::new(
            |name: Seq<char>| lookup(self.entries@, name) is Some,
            |name: Seq<char>| lookup(self.entries@, name)->0,
        )
    }

    /// The same names in the same order, with values that agree.
    pub open spec fn alike(self, other: Self, agree: spec_fn(V, V) -> bool) -> bool {
        &&& self.entries@.len() == other.entries@.len()
        &&& forall|i: int|
            0 <= i < self.entries@.len() ==> {
                &&& (#[trigger] self.entries@[i]).0@ == other.entries@[i].0@
                &&& agree(self.entries@[i].1, other.entries@[i].1)
            }
    }

    /// An empty map.
    pub fn new() -> (map: Self)
        ensures
            map.entries@ == Seq::<(CowStr, V)>::empty(),
            map.wf(),
    {
        NameMap { entries: Vec::new() }
    }

    /// How many values there are.
    pub fn len(&self) -> (n: usize)
        ensures
            n == self.entries@.len(),
    {
        self.entries.len()
    }

    /// The value under a name.
    pub fn get(&self, name: &str) -> (value: Option<&V>)
        ensures
            match value {
                Some(v) => lookup(self.entries@, name@) == Some(*v),
                None => lookup(self.entries@, name@) is None,
            },
    {
        let mut i: usize = 0;
        assert(self.entries@.skip(0) =~= self.entries@);
        while i < self.entries.len()
            invariant
                i <= self.entries.len(),
                lookup(self.entries@, name@) == lookup(self.entries@.skip(i as int), name@),
            decreases self.entries.len() - i,
        {
            assert(self.entries@.skip(i as int).drop_first() =~= self.entries@.skip(i + 1));
            if same_text(self.entries[i].0.as_str(), name) {
                return Some(&self.entries[i].1);
            }
            i += 1;
        }
        None
    }
}

/// The first entry under a name is the one that a lookup finds.
pub proof fn lemma_lookup_first<V>(entries: Seq<(CowStr, V)>, i: int)
    requires
        0 <= i < entries.len(),
        forall|j: int| 0 <= j < i ==> (#[trigger] entries[j]).0@ != entries[i].0@,
    ensures
        lookup(entries, entries[i].0@) == Some(entries[i].1),
    decreases entries.len(),
{
    if i > 0 {
        assert(entries[0].0@ != entries[i].0@);
        let rest = entries.drop_first();
        assert forall|j: int| 0 <= j < i - 1 implies (#[trigger] rest[j]).0@ != rest[i - 1].0@ by {
            assert(rest[j] == entries[j + 1]);
        }
        lemma_lookup_first(rest, i - 1);
    }
}

/// A lookup fails where no entry has the name.
pub proof fn lemma_lookup_none<V>(entries: Seq<(CowStr, V)>, name: Seq<char>)
    requires
        forall|j: int| 0 <= j < entries.len() ==> (#[trigger] entries[j]).0@ != name,
    ensures
        lookup(entries, name) is None,
    decreases entries.len(),
{
    if entries.len() > 0 {
        assert(entries[0].0@ != name);
        let rest = entries.drop_first();
        assert forall|j: int| 0 <= j < rest.len() implies (#[trigger] rest[j]).0@ != name by {
            assert(rest[j] == entries[j + 1]);
        }
        lemma_lookup_none(rest, name);
    }
}

/// What a lookup finds stands in an entry under the name.
pub proof fn lemma_lookup_some<V>(entries: Seq<(CowStr, V)>, name: Seq<char>) -> (i: int)
    requires
        lookup(entries, name) is Some,
    ensures
        0 <= i < entries.len(),
        entries[i].0@ == name,
        lookup(entries, name) == Some(entries[i].1),
        forall|j: int| 0 <= j < i ==> (#[trigger] entries[j]).0@ != name,
    decreases entries.len(),
{
    if entries[0].0@ == name {
        0
    } else {
        let rest = entries.drop_first();
        let k = lemma_lookup_some(rest, name);
        assert forall|j: int| 0 <= j < k + 1 implies (#[trigger] entries[j]).0@ != name by {
            if j > 0 {
                assert(rest[j - 1] == entries[j]);
            }
        }
        k + 1
    }
}

impl<V> NameMap<V> {
    /// Puts a value under a name and hands back the value that stood there.
    pub fn insert(&mut self, name: CowStr, value: V) -> (previous: Option<V>)
        requires
            old(self).wf(),
        ensures
            final(self).wf(),
            final(self)@ =~= old(self)@.insert(name@, value),
            previous == lookup(old(self).entries@, name@),
    {
        let ghost before = self.entries@;
        let mut i: usize = 0;
        while i < self.entries.len()
            invariant
                i <= self.entries.len(),
                self.entries@ == before,
                before == old(self).entries@,
                self.wf(),
                forall|k: int| 0 <= k < i ==> (#[trigger] before[k]).0@ != name@,
            decreases self.entries.len() - i,
        {
            if self.entries[i].0 == name {
                let mut previous: V = value;
                std::mem::swap(&mut self.entries[i].1, &mut previous);
                proof {
                    let after = self.entries@;
                    assert(after[i as int].0@ == name@);
                    assert forall|k: int| 0 <= k < after.len() implies (#[trigger] after[k]).0
                        == before[k].0 by {}
                    assert(before[i as int].0@ == name@);
                    lemma_lookup_first(before, i as int);
                    lemma_lookup_first(after, i as int);
                    assert forall|other: Seq<char>| other != name@ implies #[trigger] lookup(
                        after,
                        other,
                    ) == lookup(before, other) by {
                        lemma_same_lookup(before, after, other);
                    }
                }
                return Some(previous);
            }
            i += 1;
        }
        self.entries.push((name, value));
        proof {
            let after = self.entries@;
            lemma_lookup_none(before, name@);
            lemma_lookup_first(after, before.len() as int);
            assert forall|other: Seq<char>| other != name@ implies #[trigger] lookup(after, other)
                == lookup(before, other) by {
                lemma_lookup_push(before, (name, value), other);
            }
        }
        None
    }
}

/// Entries that agree under a name give the same lookup.
proof fn lemma_same_lookup<V>(
    before: Seq<(CowStr, V)>,
    after: Seq<(CowStr, V)>,
    name: Seq<char>,
)
    requires
        before.len() == after.len(),
        forall|k: int| 0 <= k < before.len() ==> (#[trigger] after[k]).0 == before[k].0,
        forall|k: int|
            0 <= k < before.len() && before[k].0@ == name ==> #[trigger] after[k] == before[k],
    ensures
        lookup(after, name) == lookup(before, name),
{
    if lookup(before, name) is Some {
        let i = lemma_lookup_some(before, name);
        lemma_lookup_first(after, i);
    } else if lookup(after, name) is Some {
        let i = lemma_lookup_some(after, name);
        assert(after[i].0 == before[i].0);
        assert forall|j: int| 0 <= j < i implies (#[trigger] before[j]).0@ != before[i].0@ by {
            assert(after[j].0 == before[j].0);
        }
        lemma_lookup_first(before, i);
    }
}

/// An entry under another name does not change a lookup.
proof fn lemma_lookup_push<V>(entries: Seq<(CowStr, V)>, entry: (CowStr, V), name: Seq<char>)
    requires
        entry.0@ != name,
    ensures
        lookup(entries.push(entry), name) == lookup(entries, name),
{
    let longer = entries.push(entry);
    if lookup(entries, name) is Some {
        let i = lemma_lookup_some(entries, name);
        assert forall|j: int| 0 <= j < i implies (#[trigger] longer[j]).0@ != longer[i].0@ by {
            assert(longer[j] == entries[j]);
        }
        lemma_lookup_first(longer, i);
    } else if lookup(longer, name) is Some {
        let i = lemma_lookup_some(longer, name);
        assert(longer[i] == entries[i]);
        assert forall|j: int| 0 <= j < i implies (#[trigger] entries[j]).0@ != entries[i].0@ by {
            assert(longer[j] == entries[j]);
        }
        lemma_lookup_first(entries, i);
    }
}

impl<V: PartialEq> PartialEq for NameMap<V> {
    fn eq(&self, other: &Self) -> (r: bool) {
        if self.entries.len() != other.entries.len() {
            return false;
        }
        let mut i: usize = 0;
        while i < self.entries.len()
            invariant
                i <= self.entries.len(),
                self.entries.len() == other.entries.len(),
                V::obeys_eq_spec() ==> forall|k: int|
                    0 <= k < i ==> (lookup(
                        other.entries@,
                        (#[trigger] self.entries@[k]).0@,
                    ) matches Some(v) && self.entries@[k].1.eq_spec(&v)),
            decreases self.entries.len() - i,
        {
            match other.get(self.entries[i].0.as_str()) {
                Some(value) => {
                    if !(self.entries[i].1 == *value) {
                        return false;
                    }
                },
                None => {
                    return false;
                },
            }
            i += 1;
        }
        true
    }
}

impl<V: PartialEq> vstd::std_specs::cmp::PartialEqSpecImpl for NameMap<V> {
    open spec fn obeys_eq_spec() -> bool {
        V::obeys_eq_spec()
    }

    /// As many entries, and under each name an equal value.
    open spec fn eq_spec(&self, other: &Self) -> bool {
        &&& self.entries@.len() == other.entries@.len()
        &&& forall|k: int|
            0 <= k < self.entries@.len() ==> (lookup(
                other.entries@,
                (#[trigger] self.entries@[k]).0@,
            ) matches Some(v) && self.entries@[k].1.eq_spec(&v))
    }
}

/// As many entries, and under each name values that agree.
pub open spec fn same_maps<V>(
    left: NameMap<V>,
    right: NameMap<V>,
    agree: spec_fn(V, V) -> bool,
) -> bool {
    &&& left.entries@.len() == right.entries@.len()
    &&& forall|k: int|
        0 <= k < left.entries@.len() ==> (lookup(
            right.entries@,
            (#[trigger] left.entries@[k]).0@,
        ) matches Some(v) && agree(left.entries@[k].1, v))
}

/// Set of human readable fields.
#[derive(Debug, Eq)]
pub struct HumanReadable {
    /// The JSON-LD @type.
    pub attype: CowStr,
    /// The title.
    pub title: CowStr,
    /// The description.
    pub description: CowStr,
}

impl HumanReadable {
    /// The texts agree, field by field.
    pub open spec fn same(self, other: Self) -> bool {
        &&& self.attype@ == other.attype@
        &&& self.title@ == other.title@
        &&& self.description@ == other.description@
    }
}

impl Default for HumanReadable {
    fn default() -> (r: Self)
        ensures
            r.attype@ == Seq::<char>::empty(),
            r.title@ == Seq::<char>::empty(),
            r.description@ == Seq::<char>::empty(),
    {
        HumanReadable {
            attype: CowStr::default(),
            title: CowStr::default(),
            description: CowStr::default(),
        }
    }
}

impl PartialEq for HumanReadable {
    fn eq(&self, other: &Self) -> (r: bool) {
        self.attype == other.attype && self.title == other.title && self.description
            == other.description
    }
}

impl vstd::std_specs::cmp::PartialEqSpecImpl for HumanReadable {
    open spec fn obeys_eq_spec() -> bool {
        true
    }

    open spec fn eq_spec(&self, other: &Self) -> bool {
        self.same(*other)
    }
}

/// A form component.
#[derive(Debug, Eq)]
pub struct Form {
    /// The hyper-reference of the form.
    pub href: CowStr,
    /// The operation(s) of the form.
    pub op: Option<OneOrMany<Operation>>,
    /// The subprotocol.
    pub subprotocol: Option<CowStr>,
}

impl Form {
    /// The operations of the form; the given ones where it names none.
    pub open spec fn operations(self, default_op: Seq<Operation>) -> Seq<Operation> {
        match self.op {
            Some(operations) => operations.0@,
            None => default_op,
        }
    }

    /// The same reference and, with the defaults filled in, the same operations.
    pub open spec fn equivalent(
        self,
        other: Self,
        default_op_self: Seq<Operation>,
        default_op_other: Seq<Operation>,
    ) -> bool {
        &&& self.href@ == other.href@
        &&& self.operations(default_op_self) == other.operations(default_op_other)
    }

    /// The same reference, operations and subprotocol.
    pub open spec fn same(self, other: Self) -> bool {
        &&& self.href@ == other.href@
        &&& match (self.op, other.op) {
            (None, None) => true,
            (Some(left), Some(right)) => left.0@ == right.0@,
            _ => false,
        }
        &&& match (self.subprotocol, other.subprotocol) {
            (None, None) => true,
            (Some(left), Some(right)) => left@ == right@,
            _ => false,
        }
    }

    /// Checks whether two forms are equivalent when the operations that they leave
    /// out are the given ones.
    pub fn is_equivalent(
        &self,
        other: &Self,
        default_op_self: &[Operation],
        default_op_other: &[Operation],
    ) -> (r: bool)
        ensures
            r == self.equivalent(*other, default_op_self@, default_op_other@),
    {
        let left: &[Operation] = match &self.op {
            Some(operations) => operations.as_slice(),
            None => default_op_self,
        };
        let right: &[Operation] = match &other.op {
            Some(operations) => operations.as_slice(),
            None => default_op_other,
        };
        self.href == other.href && same_operations(left, right)
    }
}

impl PartialEq for Form {
    fn eq(&self, other: &Self) -> (r: bool) {
        let same_op: bool = match (&self.op, &other.op) {
            (None, None) => true,
            (Some(left), Some(right)) => same_operations(left.as_slice(), right.as_slice()),
            _ => false,
        };
        let same_subprotocol: bool = match (&self.subprotocol, &other.subprotocol) {
            (None, None) => true,
            (Some(left), Some(right)) => left == right,
            _ => false,
        };
        self.href == other.href && same_op && same_subprotocol
    }
}

impl vstd::std_specs::cmp::PartialEqSpecImpl for Form {
    open spec fn obeys_eq_spec() -> bool {
        true
    }

    open spec fn eq_spec(&self, other: &Self) -> bool {
        self.same(*other)
    }
}

/// Forms are compared in pairs, as far as both lists reach.
pub open spec fn equivalent_forms(
    left: Seq<Form>,
    right: Seq<Form>,
    left_op: Seq<Operation>,
    right_op: Seq<Operation>,
) -> bool {
    forall|i: int|
        0 <= i < left.len() && i < right.len() ==> (#[trigger] left[i]).equivalent(
            right[i],
            left_op,
            right_op,
        )
}

/// A partial interaction affordance.
///
/// It does not contain the _human readable_ part.
#[derive(Debug, Eq, PartialEq)]
pub struct PartialInteractionAffordance {
    /// The affordance forms.
    pub forms: Vec<Form>,
}

impl Default for PartialInteractionAffordance {
    fn default() -> (r: Self)
        ensures
            r.forms@ == Seq::<Form>::empty(),
    {
        PartialInteractionAffordance { forms: Vec::new() }
    }
}

/// Checks whether the forms of two affordances are equivalent, in pairs, when
/// `get_operation` tells the operations of a form that names none from the data
/// schema of its affordance.
pub fn are_equivalent_interaction_affordance<'a, F, DS>(
    left_affordance: &'a PartialInteractionAffordance,
    left_data_schema: DS,
    right_affordance: &'a PartialInteractionAffordance,
    right_data_schema: DS,
    get_operation: F,
) -> (r: bool) where DS: Copy + 'a, F: Fn(DS) -> &'static [Operation]
    requires
        call_requires(get_operation, (left_data_schema,)),
        call_requires(get_operation, (right_data_schema,)),
    ensures
        forall|left_op: Seq<Operation>, right_op: Seq<Operation>|
            (forall|out: &'static [Operation]|
                #[trigger] call_ensures(get_operation, (left_data_schema,), out) ==> out@ == left_op)
                && (forall|out: &'static [Operation]|
                #[trigger] call_ensures(get_operation, (right_data_schema,), out) ==> out@
                    == right_op) ==> r == #[trigger] equivalent_forms(
                left_affordance.forms@,
                right_affordance.forms@,
                left_op,
                right_op,
            ),
{
    let left: &Vec<Form> = &left_affordance.forms;
    let right: &Vec<Form> = &right_affordance.forms;
    let mut i: usize = 0;
    while i < left.len() && i < right.len()
        invariant
            i <= left.len(),
            i <= right.len(),
            left == &left_affordance.forms,
            right == &right_affordance.forms,
            call_requires(get_operation, (left_data_schema,)),
            call_requires(get_operation, (right_data_schema,)),
            forall|k: int, left_op: Seq<Operation>, right_op: Seq<Operation>|
                0 <= k < i && (forall|out: &'static [Operation]|
                    #[trigger] call_ensures(get_operation, (left_data_schema,), out) ==> out@
                        == left_op) && (forall|out: &'static [Operation]|
                    #[trigger] call_ensures(get_operation, (right_data_schema,), out) ==> out@
                        == right_op) ==> (#[trigger] left[k].equivalent(right[k], left_op, right_op)),
        decreases left.len() - i,
    {
        let left_op: &'static [Operation] = get_operation(left_data_schema);
        let right_op: &'static [Operation] = get_operation(right_data_schema);
        if !left[i].is_equivalent(&right[i], left_op, right_op) {
            return false;
        }
        i += 1;
    }
    true
}

/// A full interaction affordance.
#[derive(Debug, Eq, PartialEq)]
pub struct InteractionAffordance {
    /// The _partial_ interaction affordance.
    pub interaction: PartialInteractionAffordance,
    /// The human readable fields.
    pub human_readable: HumanReadable,
}

impl InteractionAffordance {
    /// The same human readable fields and, in pairs, equivalent forms.
    pub open spec fn equivalent(self, other: Self, default_op: Seq<Operation>) -> bool {
        &&& self.human_readable.same(other.human_readable)
        &&& equivalent_forms(
            self.interaction.forms@,
            other.interaction.forms@,
            default_op,
            default_op,
        )
    }

    /// Checks whether two affordances are equivalent when a form that names no
    /// operation has the given ones.
    pub fn is_equivalent(&self, other: &Self, default_op: &'static [Operation]) -> (r: bool)
        ensures
            r == self.equivalent(*other, default_op@),
    {
        let get_operation = |_data: ()| -> (out: &'static [Operation])
            ensures
                out@ == default_op@,
            { default_op };
        self.human_readable == other.human_readable && are_equivalent_interaction_affordance(
            &self.interaction,
            (),
            &other.interaction,
            (),
            get_operation,
        )
    }
}

impl Default for InteractionAffordance {
    fn default() -> (r: Self)
        ensures
            r.interaction.forms@ == Seq::<Form>::empty(),
            r.human_readable.attype@ == Seq::<char>::empty(),
            r.human_readable.title@ == Seq::<char>::empty(),
            r.human_readable.description@ == Seq::<char>::empty(),
    {
        InteractionAffordance {
            interaction: PartialInteractionAffordance::default(),
            human_readable: HumanReadable::default(),
        }
    }
}

/// A property affordance.
#[derive(Debug)]
pub struct PropertyAffordance {
    /// The partial interaction affordance.
    pub interaction: PartialInteractionAffordance,
    /// A partial data schema.
    pub data_schema: PartialDataSchema,
    /// The human readable fields.
    pub human_readable: HumanReadable,
}

/// The operations of a property form that names none: a read-only property is
/// read, a write-only one is written, any other is read and written.
pub open spec fn property_operations(
    read_only: Option<bool>,
    write_only: Option<bool>,
) -> Seq<Operation> {
    if read_only == Some(true) {
        seq![Operation::ReadProperty]
    } else if write_only == Some(true) {
        seq![Operation::WriteProperty]
    } else {
        seq![Operation::ReadProperty, Operation::WriteProperty]
    }
}

/// The operations of a property form that names none.
pub fn default_property_operations(data_schema: &PartialDataSchema) -> (out: &'static [Operation])
    ensures
        out@ == property_operations(data_schema.read_only, data_schema.write_only),
{
    match (data_schema.read_only, data_schema.write_only) {
        (None | Some(false), None | Some(false)) => {
            [Operation::ReadProperty, Operation::WriteProperty].as_slice()
        },
        (Some(true), _) => [Operation::ReadProperty].as_slice(),
        (_, Some(true)) => [Operation::WriteProperty].as_slice(),
    }
}

impl PropertyAffordance {
    /// No name occurs twice in the data schema.
    pub open spec fn unique_names(self) -> bool {
        self.data_schema.unique_names()
    }

    /// The data schema is well-formed.
    pub open spec fn wf(self) -> bool {
        self.data_schema.wf()
    }

    /// The operations of a form of this property that names none.
    pub open spec fn default_operations(self) -> Seq<Operation> {
        property_operations(self.data_schema.read_only, self.data_schema.write_only)
    }

    /// In pairs equivalent forms, equivalent schemas when a missing read-only or
    /// write-only flag counts as false, and the same human readable fields.
    pub open spec fn same(self, other: Self) -> bool {
        &&& equivalent_forms(
            self.interaction.forms@,
            other.interaction.forms@,
            self.default_operations(),
            other.default_operations(),
        )
        &&& self.data_schema.equivalent(other.data_schema, None)
        &&& crate::td::schema::flag_or(self.data_schema.read_only, Some(false))
            == crate::td::schema::flag_or(other.data_schema.read_only, Some(false))
        &&& crate::td::schema::flag_or(self.data_schema.write_only, Some(false))
            == crate::td::schema::flag_or(other.data_schema.write_only, Some(false))
        &&& self.human_readable.same(other.human_readable)
    }
}

impl PartialEq for PropertyAffordance {
    fn eq(&self, other: &Self) -> (r: bool) {
        let defaults = PartialDataSchemaDefaults {
            read_only: &Some(false),
            write_only: &Some(false),
        };
        let get_operation = |data: &PartialDataSchema| -> (out: &'static [Operation])
            ensures
                out@ == property_operations(data.read_only, data.write_only),
            { default_property_operations(data) };
        are_equivalent_interaction_affordance(
            &self.interaction,
            &self.data_schema,
            &other.interaction,
            &other.data_schema,
            get_operation,
        ) && self.data_schema.is_equivalent(&other.data_schema, Some(defaults))
            && self.human_readable == other.human_readable
    }
}

impl vstd::std_specs::cmp::PartialEqSpecImpl for PropertyAffordance {
    open spec fn obeys_eq_spec() -> bool {
        true
    }

    open spec fn eq_spec(&self, other: &Self) -> bool {
        self.same(*other)
    }
}

/// An action affordance.
#[derive(Debug)]
pub struct ActionAffordance {
    /// The interaction affordance.
    pub interaction: InteractionAffordance,
    /// The data schema for input fields.
    pub input: Option<DataSchema>,
    /// The data schema for output fields.
    pub output: Option<DataSchema>,
    /// Is it synchronous?
    pub synchronous: Option<bool>,
}

impl ActionAffordance {
    /// No name occurs twice in a data schema.
    pub open spec fn unique_names(self) -> bool {
        &&& self.input matches Some(input) ==> input.unique_names()
        &&& self.output matches Some(output) ==> output.unique_names()
    }

    /// The data schemas are well-formed.
    pub open spec fn wf(self) -> bool {
        &&& self.input matches Some(input) ==> input.wf()
        &&& self.output matches Some(output) ==> output.wf()
    }

    /// Equivalent interactions, where a form that names no operation invokes the
    /// action, equivalent inputs and outputs, and the same synchronous flag.
    pub open spec fn same(self, other: Self) -> bool {
        &&& self.interaction.equivalent(other.interaction, seq![Operation::InvokeAction])
        &&& crate::td::schema::equivalent_opt_data_schema(self.input, other.input)
        &&& crate::td::schema::equivalent_opt_data_schema(self.output, other.output)
        &&& self.synchronous == other.synchronous
    }
}

impl Default for ActionAffordance {
    fn default() -> (r: Self)
        ensures
            r.interaction.interaction.forms@ == Seq::<Form>::empty(),
            r.interaction.human_readable.attype@ == Seq::<char>::empty(),
            r.interaction.human_readable.title@ == Seq::<char>::empty(),
            r.interaction.human_readable.description@ == Seq::<char>::empty(),
            r.input is None,
            r.output is None,
            r.synchronous is None,
    {
        ActionAffordance {
            interaction: InteractionAffordance::default(),
            input: None,
            output: None,
            synchronous: None,
        }
    }
}

impl PartialEq for ActionAffordance {
    fn eq(&self, other: &Self) -> (r: bool) {
        let default_op: &'static [Operation] = [Operation::InvokeAction].as_slice();
        assert(default_op@ =~= seq![Operation::InvokeAction]);
        self.interaction.is_equivalent(&other.interaction, default_op)
            && are_equivalent_opt_data_schema(&self.input, &other.input)
            && are_equivalent_opt_data_schema(&self.output, &other.output) && self.synchronous
            == other.synchronous
    }
}

impl vstd::std_specs::cmp::PartialEqSpecImpl for ActionAffordance {
    open spec fn obeys_eq_spec() -> bool {
        true
    }

    open spec fn eq_spec(&self, other: &Self) -> bool {
        self.same(*other)
    }
}

/// An event affordance.
#[derive(Debug)]
pub struct EventAffordance {
    /// The interaction affordance.
    pub interaction: InteractionAffordance,
    /// The data schema.
    pub data: Option<DataSchema>,
}

impl EventAffordance {
    /// No name occurs twice in the data schema.
    pub open spec fn unique_names(self) -> bool {
        self.data matches Some(data) ==> data.unique_names()
    }

    /// The data schema is well-formed.
    pub open spec fn wf(self) -> bool {
        self.data matches Some(data) ==> data.wf()
    }

    /// Equivalent interactions, where a form that names no operation subscribes and
    /// unsubscribes, and equivalent data.
    pub open spec fn same(self, other: Self) -> bool {
        &&& self.interaction.equivalent(
            other.interaction,
            seq![Operation::SubscribeEvent, Operation::UnsubscribeEvent],
        )
        &&& crate::td::schema::equivalent_opt_data_schema(self.data, other.data)
    }
}

impl Default for EventAffordance {
    fn default() -> (r: Self)
        ensures
            r.interaction.interaction.forms@ == Seq::<Form>::empty(),
            r.interaction.human_readable.attype@ == Seq::<char>::empty(),
            r.interaction.human_readable.title@ == Seq::<char>::empty(),
            r.interaction.human_readable.description@ == Seq::<char>::empty(),
            r.data is None,
    {
        EventAffordance { interaction: InteractionAffordance::default(), data: None }
    }
}

impl PartialEq for EventAffordance {
    fn eq(&self, other: &Self) -> (r: bool) {
        let default_op: &'static [Operation] = [
            Operation::SubscribeEvent,
            Operation::UnsubscribeEvent,
        ].as_slice();
        assert(default_op@ =~= seq![Operation::SubscribeEvent, Operation::UnsubscribeEvent]);
        self.interaction.is_equivalent(&other.interaction, default_op)
            && are_equivalent_opt_data_schema(&self.data, &other.data)
    }
}

impl vstd::std_specs::cmp::PartialEqSpecImpl for EventAffordance {
    open spec fn obeys_eq_spec() -> bool {
        true
    }

    open spec fn eq_spec(&self, other: &Self) -> bool {
        self.same(*other)
    }
}

/// The forms of two lists are the same, one by one.
pub open spec fn same_forms(left: Seq<Form>, right: Seq<Form>) -> bool {
    &&& left.len() == right.len()
    &&& forall|i: int| 0 <= i < left.len() ==> (#[trigger] left[i]).same(right[i])
}

/// Whether the forms of two lists are the same, one by one.
fn equal_forms(left: &Vec<Form>, right: &Vec<Form>) -> (same: bool)
    ensures
        same == same_forms(left@, right@),
{
    if left.len() != right.len() {
        return false;
    }
    let mut i: usize = 0;
    while i < left.len()
        invariant
            i <= left.len(),
            left.len() == right.len(),
            forall|k: int| 0 <= k < i ==> (#[trigger] left[k]).same(right[k]),
        decreases left.len() - i,
    {
        if left[i] != right[i] {
            assert(!left@[i as int].same(right@[i as int]));
            return false;
        }
        i += 1;
    }
    true
}

/// A Thing Description.
#[derive(Debug)]
pub struct ThingDescription {
    /// The id.
    pub id: CowStr,
    /// The title.
    pub title: CowStr,
    /// The security string.
    pub security: CowStr,
    /// The security definitions.
    pub security_definitions: NameMap<SecuritySchemeDefinition>,
    /// The JSON-LD @type.
    pub attype: OneOrMany<CowStr>,
    /// The description.
    pub description: CowStr,
    /// The properties.
    pub properties: NameMap<PropertyAffordance>,
    /// The actions.
    pub actions: NameMap<ActionAffordance>,
    /// The events.
    pub events: NameMap<EventAffordance>,
    /// The Thing-level forms.
    pub forms: Vec<Form>,
}

impl ThingDescription {
    /// No name occurs twice in a map, nor in what the maps hold.
    pub open spec fn unique_names(self) -> bool {
        &&& self.security_definitions.wf()
        &&& self.properties.wf()
        &&& self.actions.wf()
        &&& self.events.wf()
        &&& forall|i: int|
            0 <= i < self.properties.entries@.len() ==> (
            #[trigger] self.properties.entries@[i]).1.unique_names()
        &&& forall|i: int|
            0 <= i < self.actions.entries@.len() ==> (
            #[trigger] self.actions.entries@[i]).1.unique_names()
        &&& forall|i: int|
            0 <= i < self.events.entries@.len() ==> (
            #[trigger] self.events.entries@[i]).1.unique_names()
    }

    /// No name occurs twice in a map, and all that the maps hold is well-formed.
    pub open spec fn wf(self) -> bool {
        &&& self.security_definitions.wf()
        &&& self.properties.wf()
        &&& self.actions.wf()
        &&& self.events.wf()
        &&& forall|i: int|
            0 <= i < self.properties.entries@.len() ==> (
            #[trigger] self.properties.entries@[i]).1.wf()
        &&& forall|i: int|
            0 <= i < self.actions.entries@.len() ==> (#[trigger] self.actions.entries@[i]).1.wf()
        &&& forall|i: int|
            0 <= i < self.events.entries@.len() ==> (#[trigger] self.events.entries@[i]).1.wf()
    }

    /// The same texts, types and Thing-level forms, and under the same names equal
    /// security definitions, properties, actions and events.
    pub open spec fn same(self, other: Self) -> bool {
        &&& self.id@ == other.id@
        &&& self.title@ == other.title@
        &&& self.security@ == other.security@
        &&& same_maps(
            self.security_definitions,
            other.security_definitions,
            |a: SecuritySchemeDefinition, b: SecuritySchemeDefinition| a.scheme == b.scheme,
        )
        &&& same_texts(self.attype.0@, other.attype.0@)
        &&& self.description@ == other.description@
        &&& same_maps(
            self.properties,
            other.properties,
            |a: PropertyAffordance, b: PropertyAffordance| a.same(b),
        )
        &&& same_maps(
            self.actions,
            other.actions,
            |a: ActionAffordance, b: ActionAffordance| a.same(b),
        )
        &&& same_maps(
            self.events,
            other.events,
            |a: EventAffordance, b: EventAffordance| a.same(b),
        )
        &&& same_forms(self.forms@, other.forms@)
    }
}

impl PartialEq for ThingDescription {
    fn eq(&self, other: &Self) -> (r: bool) {
        self.id == other.id && self.title == other.title && self.security == other.security
            && self.security_definitions == other.security_definitions && equal_texts(
            &self.attype.0,
            &other.attype.0,
        ) && self.description == other.description && self.properties == other.properties
            && self.actions == other.actions && self.events == other.events && equal_forms(
            &self.forms,
            &other.forms,
        )
    }
}

impl vstd::std_specs::cmp::PartialEqSpecImpl for ThingDescription {
    open spec fn obeys_eq_spec() -> bool {
        true
    }

    open spec fn eq_spec(&self, other: &Self) -> bool {
        self.same(*other)
    }
}

} // verus!
