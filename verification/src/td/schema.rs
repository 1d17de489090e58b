//! Data schemas.

use vstd::prelude::*;

use crate::number::Binary64;
use crate::td::{all_listed, CowStr, HumanReadable, NameMap};

verus! {

/// An integer data schema.
#[derive(Clone, Copy, Debug, Eq, PartialEq, Structural)]
pub struct IntegerDataSchema {
    /// The minimum value.
    pub minimum: Option<i64>,
    /// The maximum value.
    pub maximum: Option<i64>,
}

impl Default for IntegerDataSchema {
    fn default() -> (r: Self)
        ensures
            r == (IntegerDataSchema { minimum: None, maximum: None }),
    {
        IntegerDataSchema { minimum: None, maximum: None }
    }
}

/// A number data schema.
#[derive(Clone, Copy, Debug)]
pub struct NumberDataSchema {
    /// The minimum value.
    pub minimum: Option<Binary64>,
    /// The maximum value.
    pub maximum: Option<Binary64>,
}

/// Both bounds are missing, or both are there and equal as numbers.
pub open spec fn equal_bounds(left: Option<Binary64>, right: Option<Binary64>) -> bool {
    match (left, right) {
        (None, None) => true,
        (Some(left), Some(right)) => left.equals(right),
        _ => false,
    }
}

impl NumberDataSchema {
    /// The bounds are equal as numbers.
    pub open spec fn same(self, other: Self) -> bool {
        equal_bounds(self.minimum, other.minimum) && equal_bounds(self.maximum, other.maximum)
    }

    /// Each bound that is there is a number.
    pub open spec fn has_numbers(self) -> bool {
        &&& self.minimum matches Some(minimum) ==> !minimum.is_nan()
        &&& self.maximum matches Some(maximum) ==> !maximum.is_nan()
    }
}

impl Default for NumberDataSchema {
    fn default() -> (r: Self)
        ensures
            r == (NumberDataSchema { minimum: None, maximum: None }),
    {
        NumberDataSchema { minimum: None, maximum: None }
    }
}

impl PartialEq for NumberDataSchema {
    fn eq(&self, other: &Self) -> (r: bool) {
        self.minimum == other.minimum && self.maximum == other.maximum
    }
}

impl vstd::std_specs::cmp::PartialEqSpecImpl for NumberDataSchema {
    open spec fn obeys_eq_spec() -> bool {
        true
    }

    open spec fn eq_spec(&self, other: &Self) -> bool {
        self.same(*other)
    }
}

/// An object data schema.
#[derive(Debug, PartialEq)]
pub struct ObjectDataSchema {
    /// The properties of the object.
    pub properties: NameMap<DataSchema>,
    /// The set of required properties, by key.
    pub required: Vec<CowStr>,
}

impl Default for ObjectDataSchema {
    fn default() -> (r: Self)
        ensures
            r.properties.entries@ == Seq::<(CowStr, DataSchema)>::empty(),
            r.required@ == Seq::<CowStr>::empty(),
    {
        ObjectDataSchema { properties: NameMap::new(), required: Vec::new() }
    }
}

/// Data schema subtypes.
#[derive(Debug, PartialEq)]
pub enum DataSchemaSubtype {
    /// An object data schema.
    Object(ObjectDataSchema),
    /// An array data schema.
    Array,
    /// A string data schema.
    String,
    /// A number data schema.
    Number(NumberDataSchema),
    /// An integer data schema.
    Integer(IntegerDataSchema),
    /// A boolean data schema.
    Boolean,
    /// A null data schema.
    Null,
}

/// A partial data schema.
#[derive(Debug, PartialEq)]
pub struct PartialDataSchema {
    /// The data schema subtype.
    pub subtype: DataSchemaSubtype,
    /// The unit.
    pub unit: CowStr,
    /// Is it read only?
    pub read_only: Option<bool>,
    /// Is it write only?
    pub write_only: Option<bool>,
    /// Is it observable?
    pub observable: bool,
}

/// A data schema.
#[derive(Debug, PartialEq)]
pub struct DataSchema {
    /// The partial data schema.
    pub data_schema: PartialDataSchema,
    /// The human readable fields.
    pub human_readable: HumanReadable,
}

/// A helper structure for default data schema fields.
#[derive(Debug, Clone, Copy)]
pub struct PartialDataSchemaDefaults {
    /// Is it read only?
    pub read_only: &'static Option<bool>,
    /// Is it write only?
    pub write_only: &'static Option<bool>,
}

impl Default for PartialDataSchemaDefaults {
    fn default() -> (r: Self)
        ensures
            *r.read_only is None,
            *r.write_only is None,
    {
        PartialDataSchemaDefaults { read_only: &None, write_only: &None }
    }
}

/// A flag, or its default where it is missing.
pub open spec fn flag_or(flag: Option<bool>, default: Option<bool>) -> Option<bool> {
    match flag {
        Some(_) => flag,
        None => default,
    }
}

/// A flag, or its default where it is missing.
fn flag_or_default(flag: Option<bool>, default: &Option<bool>) -> (r: Option<bool>)
    ensures
        r == flag_or(flag, *default),
{
    match flag {
        Some(_) => flag,
        None => *default,
    }
}

impl ObjectDataSchema {
    /// As many properties, under each name an equivalent schema, and the same names
    /// required.
    pub open spec fn equivalent(self, other: Self) -> bool
        decreases self,
    {
        &&& self.properties.entries@.len() == other.properties.entries@.len()
        &&& forall|i: int|
            0 <= i < self.properties.entries@.len() ==> (crate::td::lookup(
                other.properties.entries@,
                (#[trigger] self.properties.entries@[i]).0@,
            ) matches Some(schema) && self.properties.entries@[i].1.equivalent(schema))
        &&& crate::td::same_members(self.required@, other.required@)
    }
}

impl DataSchemaSubtype {
    /// The same subtype with equivalent contents.
    pub open spec fn equivalent(self, other: Self) -> bool
        decreases self,
    {
        match (self, other) {
            (DataSchemaSubtype::Object(a), DataSchemaSubtype::Object(b)) => a.equivalent(b),
            (DataSchemaSubtype::Integer(a), DataSchemaSubtype::Integer(b)) => a == b,
            (DataSchemaSubtype::Number(a), DataSchemaSubtype::Number(b)) => a.same(b),
            (DataSchemaSubtype::Array, DataSchemaSubtype::Array) => true,
            (DataSchemaSubtype::String, DataSchemaSubtype::String) => true,
            (DataSchemaSubtype::Boolean, DataSchemaSubtype::Boolean) => true,
            (DataSchemaSubtype::Null, DataSchemaSubtype::Null) => true,
            _ => false,
        }
    }
}

impl PartialDataSchema {
    /// Equivalent subtypes, the same unit and, where defaults are given, the same
    /// read-only and write-only flags with the defaults filled in.
    pub open spec fn equivalent(
        self,
        other: Self,
        defaults: Option<PartialDataSchemaDefaults>,
    ) -> bool
        decreases self,
    {
        &&& self.subtype.equivalent(other.subtype)
        &&& self.unit@ == other.unit@
        &&& defaults matches Some(defaults) ==> {
            &&& flag_or(self.read_only, *defaults.read_only) == flag_or(
                other.read_only,
                *defaults.read_only,
            )
            &&& flag_or(self.write_only, *defaults.write_only) == flag_or(
                other.write_only,
                *defaults.write_only,
            )
        }
    }
}

impl DataSchema {
    /// Equivalent partial schemas, whatever their flags, and the same human readable
    /// fields.
    pub open spec fn equivalent(self, other: Self) -> bool
        decreases self,
    {
        &&& self.data_schema.equivalent(other.data_schema, None)
        &&& self.human_readable.same(other.human_readable)
    }
}

impl ObjectDataSchema {
    /// No name occurs twice, neither here nor in a schema inside.
    pub open spec fn unique_names(self) -> bool
        decreases self,
    {
        &&& self.properties.wf()
        &&& forall|i: int|
            0 <= i < self.properties.entries@.len() ==> (
            #[trigger] self.properties.entries@[i]).1.unique_names()
    }

    /// Every bound in a schema inside is a number.
    pub open spec fn has_numbers(self) -> bool
        decreases self,
    {
        forall|i: int|
            0 <= i < self.properties.entries@.len() ==> (
            #[trigger] self.properties.entries@[i]).1.has_numbers()
    }

    /// No name occurs twice, neither here nor in a schema inside, and every bound is a
    /// number.
    pub open spec fn wf(self) -> bool {
        self.unique_names() && self.has_numbers()
    }
}

impl DataSchemaSubtype {
    /// No name occurs twice in a schema inside.
    pub open spec fn unique_names(self) -> bool
        decreases self,
    {
        self matches DataSchemaSubtype::Object(object) ==> object.unique_names()
    }

    /// Every bound is a number.
    pub open spec fn has_numbers(self) -> bool
        decreases self,
    {
        match self {
            DataSchemaSubtype::Object(object) => object.has_numbers(),
            DataSchemaSubtype::Number(number) => number.has_numbers(),
            _ => true,
        }
    }

    /// No name occurs twice in a schema inside, and every bound is a number.
    pub open spec fn wf(self) -> bool {
        self.unique_names() && self.has_numbers()
    }
}

impl PartialDataSchema {
    /// No name occurs twice in a schema inside.
    pub open spec fn unique_names(self) -> bool
        decreases self,
    {
        self.subtype.unique_names()
    }

    /// Every bound is a number.
    pub open spec fn has_numbers(self) -> bool
        decreases self,
    {
        self.subtype.has_numbers()
    }

    /// No name occurs twice in a schema inside, and every bound is a number.
    pub open spec fn wf(self) -> bool {
        self.unique_names() && self.has_numbers()
    }
}

impl DataSchema {
    /// No name occurs twice in a schema inside.
    pub open spec fn unique_names(self) -> bool
        decreases self,
    {
        self.data_schema.unique_names()
    }

    /// Every bound is a number.
    pub open spec fn has_numbers(self) -> bool
        decreases self,
    {
        self.data_schema.has_numbers()
    }

    /// No name occurs twice in a schema inside, and every bound is a number.
    pub open spec fn wf(self) -> bool {
        self.unique_names() && self.has_numbers()
    }
}

impl ObjectDataSchema {
    /// Checks whether two object schemas are equivalent.
    pub fn is_equivalent(&self, other: &Self) -> (r: bool)
        ensures
            r == self.equivalent(*other),
        decreases self,
    {
        if self.properties.entries.len() != other.properties.entries.len() {
            return false;
        }
        let mut i: usize = 0;
        while i < self.properties.entries.len()
            invariant
                i <= self.properties.entries.len(),
                self.properties.entries.len() == other.properties.entries.len(),
                forall|k: int|
                    0 <= k < i ==> (crate::td::lookup(
                        other.properties.entries@,
                        (#[trigger] self.properties.entries@[k]).0@,
                    ) matches Some(schema) && self.properties.entries@[k].1.equivalent(schema)),
            decreases self.properties.entries.len() - i,
        {
            match other.properties.get(self.properties.entries[i].0.as_str()) {
                Some(schema) => {
                    if !self.properties.entries[i].1.is_equivalent(schema) {
                        return false;
                    }
                },
                None => {
                    return false;
                },
            }
            i += 1;
        }
        all_listed(&self.required, &other.required) && all_listed(&other.required, &self.required)
    }
}

impl DataSchemaSubtype {
    /// Checks whether two subtypes are equivalent.
    pub fn is_equivalent(&self, other: &Self) -> (r: bool)
        ensures
            r == self.equivalent(*other),
        decreases self,
    {
        match (self, other) {
            (DataSchemaSubtype::Object(a), DataSchemaSubtype::Object(b)) => a.is_equivalent(b),
            (DataSchemaSubtype::Integer(a), DataSchemaSubtype::Integer(b)) => *a == *b,
            (DataSchemaSubtype::Number(a), DataSchemaSubtype::Number(b)) => *a == *b,
            (DataSchemaSubtype::Array, DataSchemaSubtype::Array) => true,
            (DataSchemaSubtype::String, DataSchemaSubtype::String) => true,
            (DataSchemaSubtype::Boolean, DataSchemaSubtype::Boolean) => true,
            (DataSchemaSubtype::Null, DataSchemaSubtype::Null) => true,
            _ => false,
        }
    }
}

impl PartialDataSchema {
    /// Checks whether two partial data schemas are equivalent.
    pub fn is_equivalent(
        &self,
        other: &Self,
        defaults: Option<PartialDataSchemaDefaults>,
    ) -> (r: bool)
        ensures
            r == self.equivalent(*other, defaults),
        decreases self,
    {
        let same_flags: bool = match defaults {
            Some(defaults) => {
                flag_or_default(self.read_only, defaults.read_only) == flag_or_default(
                    other.read_only,
                    defaults.read_only,
                ) && flag_or_default(self.write_only, defaults.write_only) == flag_or_default(
                    other.write_only,
                    defaults.write_only,
                )
            },
            None => true,
        };
        self.subtype.is_equivalent(&other.subtype) && self.unit == other.unit && same_flags
    }
}

impl DataSchema {
    /// Checks whether two data schemas are equivalent.
    pub fn is_equivalent(&self, other: &Self) -> (r: bool)
        ensures
            r == self.equivalent(*other),
        decreases self,
    {
        self.data_schema.is_equivalent(&other.data_schema, None) && self.human_readable
            == other.human_readable
    }
}

/// Both schemas are missing, or both are there and equivalent.
pub open spec fn equivalent_opt_data_schema(
    left: Option<DataSchema>,
    right: Option<DataSchema>,
) -> bool {
    match (left, right) {
        (None, None) => true,
        (Some(left), Some(right)) => left.equivalent(right),
        _ => false,
    }
}

/// Checks whether two optional data schemas are equivalent.
pub fn are_equivalent_opt_data_schema(
    left: &Option<DataSchema>,
    right: &Option<DataSchema>,
) -> (r: bool)
    ensures
        r == equivalent_opt_data_schema(*left, *right),
{
    match (left, right) {
        (None, None) => true,
        (Some(left), Some(right)) => left.is_equivalent(right),
        _ => false,
    }
}

} // verus!
