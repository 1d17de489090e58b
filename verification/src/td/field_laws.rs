//! What the comparison of descriptions means for each of their fields.

use vstd::prelude::*;

use crate::number::Binary64;
use crate::td::{
    ActionAffordance, CowStr, DataSchema, DataSchemaSubtype, EventAffordance, Form, HumanReadable,
    NameMap, Operation, PartialDataSchema, PartialDataSchemaDefaults, PropertyAffordance,
    SecuritySchemeDefinition, ThingDescription,
};

verus! {

/// The texts of a list.
pub open spec fn texts(list: Seq<CowStr>) -> Seq<Seq<char>> {
    list.map_values(|text: CowStr| text@)
}

/// A list holds a text exactly when it is one of its texts, two lists are the same exactly
/// when their texts are, in order and number, and they have the same members exactly when
/// each text of the one is also one of the other.
pub proof fn lists_are_compared_by_their_texts(
    left: Seq<CowStr>,
    right: Seq<CowStr>,
    text: Seq<char>,
)
    ensures
        crate::td::lists(left, text) <==> texts(left).contains(text),
        crate::td::same_texts(left, right) <==> texts(left) == texts(right),
        crate::td::same_members(left, right) <==> texts(left).to_set() == texts(right).to_set(),
{
    lemma_lists(left, text);
    if crate::td::same_texts(left, right) {
        assert(texts(left) =~= texts(right));
    }
    if texts(left) == texts(right) {
        assert forall|i: int| 0 <= i < left.len() implies #[trigger] left[i]@ == right[i]@ by {
            assert(texts(left)[i] == texts(right)[i]);
        }
        assert(texts(left).len() == texts(right).len());
    }
    if crate::td::same_members(left, right) {
        assert forall|other: Seq<char>|
            texts(left).to_set().contains(other) == texts(right).to_set().contains(other) by {
            lemma_lists(left, other);
            lemma_lists(right, other);
            assert(crate::td::lists(left, other) <==> crate::td::lists(right, other));
        }
        assert(texts(left).to_set() =~= texts(right).to_set());
    }
    if texts(left).to_set() == texts(right).to_set() {
        assert forall|other: Seq<char>| #[trigger]
            crate::td::lists(left, other) <==> crate::td::lists(right, other) by {
            lemma_lists(left, other);
            lemma_lists(right, other);
            assert(texts(left).to_set().contains(other) == texts(right).to_set().contains(other));
        }
    }
}

proof fn lemma_lists(list: Seq<CowStr>, text: Seq<char>)
    ensures
        crate::td::lists(list, text) <==> texts(list).contains(text),
        crate::td::lists(list, text) <==> texts(list).to_set().contains(text),
{
    if crate::td::lists(list, text) {
        let i = choose|i: int| 0 <= i < list.len() && #[trigger] list[i]@ == text;
        assert(texts(list)[i] == text);
    }
    if texts(list).contains(text) {
        let i = choose|i: int| 0 <= i < texts(list).len() && texts(list)[i] == text;
        assert(list[i]@ == text);
    }
}

/// The operations that a form names or, where it names none, those that it has by default.
pub open spec fn named_or(form: Form, default_op: Seq<Operation>) -> Seq<Operation> {
    if form.op is Some {
        (form.op->0).0@
    } else {
        default_op
    }
}

/// Forms are equivalent exactly when they have the same reference and the same operations in
/// the same order, where one that names none has those by default; they are the same exactly
/// when they have the same reference, name the same operations or both none, and have the
/// same subprotocol or both none.
pub proof fn forms_are_compared_field_by_field(
    a: Form,
    b: Form,
    default_a: Seq<Operation>,
    default_b: Seq<Operation>,
)
    ensures
        a.equivalent(b, default_a, default_b) <==> a.href@ == b.href@ && named_or(a, default_a)
            == named_or(b, default_b),
        a.same(b) <==> {
            &&& a.href@ == b.href@
            &&& a.op is Some <==> b.op is Some
            &&& a.op is Some && b.op is Some ==> (a.op->0).0@ == (b.op->0).0@
            &&& a.subprotocol is Some <==> b.subprotocol is Some
            &&& a.subprotocol is Some && b.subprotocol is Some ==> a.subprotocol->0@
                == b.subprotocol->0@
        },
{
}

/// Forms of affordances are compared in pairs, as far as both lists reach.
pub proof fn affordance_forms_are_compared_in_pairs(
    left: Seq<Form>,
    right: Seq<Form>,
    left_op: Seq<Operation>,
    right_op: Seq<Operation>,
)
    ensures
        crate::td::equivalent_forms(left, right, left_op, right_op) <==> forall|i: int|
            0 <= i < left.len() && i < right.len() ==> (#[trigger] left[i]).href@ == right[i].href@
                && named_or(left[i], left_op) == named_or(right[i], right_op),
{
}

/// A form of a property that names no operation reads it unless it is only written, and writes
/// it unless it is only read; one that is only read and only written is only read.
pub proof fn property_forms_read_and_write(read_only: Option<bool>, write_only: Option<bool>)
    ensures
        ({
            let operations = crate::td::property_operations(read_only, write_only);
            let reads = read_only == Some(true) || write_only != Some(true);
            let writes = read_only != Some(true);
            &&& operations.contains(Operation::ReadProperty) <==> reads
            &&& operations.contains(Operation::WriteProperty) <==> writes
            &&& reads && writes ==> operations == seq![
                Operation::ReadProperty,
                Operation::WriteProperty,
            ]
            &&& !(reads && writes) ==> operations.len() == 1
        }),
{
    let operations = crate::td::property_operations(read_only, write_only);
    assert(operations[0] == Operation::ReadProperty || operations[0] == Operation::WriteProperty);
    assert(operations.len() == 2 ==> operations[1] == Operation::WriteProperty);
}

/// Bounds are equal exactly when both are missing, or both are there and are one number: their
/// bits are the same, or both are zeros.
pub open spec fn one_bound(left: Option<Binary64>, right: Option<Binary64>) -> bool {
    &&& left is Some <==> right is Some
    &&& left is Some && right is Some ==> {
        let (x, y) = (left->0, right->0);
        &&& !x.is_nan()
        &&& !y.is_nan()
        &&& x.bits == y.bits || (x.bits == 0 || x.bits == 0x8000_0000_0000_0000) && (y.bits == 0
            || y.bits == 0x8000_0000_0000_0000)
    }
}

/// A schema stands under a name and is one to which a given one is equivalent.
pub open spec fn has_schema(
    properties: NameMap<DataSchema>,
    name: Seq<char>,
    schema: DataSchema,
) -> bool {
    exists|j: int|
        0 <= j < properties.entries@.len() && (#[trigger] properties.entries@[j]).0@ == name
            && schema.equivalent(properties.entries@[j].1)
}

/// Subtypes are equivalent only where they are of the same kind: two integers with the same
/// least and the same greatest value, two numbers with equal bounds, two arrays, texts, truth
/// values or nulls, and two objects with as many properties, equivalent ones under each name,
/// and the same ones required.
pub proof fn subtypes_are_compared_by_kind(a: DataSchemaSubtype, b: DataSchemaSubtype)
    requires
        b matches DataSchemaSubtype::Object(object) ==> object.properties.wf(),
    ensures
        match a {
            DataSchemaSubtype::Integer(x) => a.equivalent(b) <==> (b matches
                DataSchemaSubtype::Integer(y) && x.minimum == y.minimum && x.maximum == y.maximum),
            DataSchemaSubtype::Number(x) => a.equivalent(b) <==> (b matches
                DataSchemaSubtype::Number(y) && one_bound(x.minimum, y.minimum) && one_bound(
                x.maximum,
                y.maximum,
            )),
            DataSchemaSubtype::Array => a.equivalent(b) <==> b is Array,
            DataSchemaSubtype::String => a.equivalent(b) <==> b is String,
            DataSchemaSubtype::Boolean => a.equivalent(b) <==> b is Boolean,
            DataSchemaSubtype::Null => a.equivalent(b) <==> b is Null,
            DataSchemaSubtype::Object(x) => a.equivalent(b) <==> (b matches
                DataSchemaSubtype::Object(y) && x.properties.entries@.len()
                == y.properties.entries@.len() && (forall|i: int|
                0 <= i < x.properties.entries@.len() ==> has_schema(
                    y.properties,
                    (#[trigger] x.properties.entries@[i]).0@,
                    x.properties.entries@[i].1,
                )) && texts(x.required@).to_set() == texts(y.required@).to_set()),
        },
{
    match (a, b) {
        (DataSchemaSubtype::Object(x), DataSchemaSubtype::Object(y)) => {
            assert forall|i: int| 0 <= i < x.properties.entries@.len() implies has_schema(
                y.properties,
                (#[trigger] x.properties.entries@[i]).0@,
                x.properties.entries@[i].1,
            ) == (crate::td::lookup(y.properties.entries@, x.properties.entries@[i].0@) matches Some(
                schema,
            ) && x.properties.entries@[i].1.equivalent(schema)) by {
                let name = x.properties.entries@[i].0@;
                let entries = y.properties.entries@;
                if crate::td::lookup(entries, name) is Some {
                    let j = crate::td::lemma_lookup_some(entries, name);
                    assert(entries[j].0@ == name);
                }
                if has_schema(y.properties, name, x.properties.entries@[i].1) {
                    let j = choose|j: int|
                        0 <= j < entries.len() && (#[trigger] entries[j]).0@ == name
                            && x.properties.entries@[i].1.equivalent(entries[j].1);
                    crate::td::lemma_lookup_first(entries, j);
                }
            }
            lists_are_compared_by_their_texts(x.required@, y.required@, Seq::empty());
            reveal_with_fuel(DataSchemaSubtype::equivalent, 2);
            reveal_with_fuel(crate::td::ObjectDataSchema::equivalent, 2);
        },
        (DataSchemaSubtype::Number(x), DataSchemaSubtype::Number(y)) => {
            if x.minimum is Some && y.minimum is Some {
                crate::number::numbers_are_equal_by_their_bits(x.minimum->0, y.minimum->0);
            }
            if x.maximum is Some && y.maximum is Some {
                crate::number::numbers_are_equal_by_their_bits(x.maximum->0, y.maximum->0);
            }
        },
        _ => {},
    }
}

/// A flag counts as the default where it is missing.
pub open spec fn flag_counts(flag: Option<bool>, default: Option<bool>) -> Option<bool> {
    if flag is None {
        default
    } else {
        flag
    }
}

/// Partial schemas are equivalent exactly when their subtypes are, their units are the same
/// and, where defaults are given, their read-only and their write-only flags count as the
/// same.
pub proof fn partial_schemas_are_compared_field_by_field(
    a: PartialDataSchema,
    b: PartialDataSchema,
    defaults: PartialDataSchemaDefaults,
)
    ensures
        a.equivalent(b, None) <==> a.subtype.equivalent(b.subtype) && a.unit@ == b.unit@,
        a.equivalent(b, Some(defaults)) <==> {
            &&& a.subtype.equivalent(b.subtype)
            &&& a.unit@ == b.unit@
            &&& flag_counts(a.read_only, *defaults.read_only) == flag_counts(
                b.read_only,
                *defaults.read_only,
            )
            &&& flag_counts(a.write_only, *defaults.write_only) == flag_counts(
                b.write_only,
                *defaults.write_only,
            )
        },
{
}

/// Human readable fields have the same texts.
pub open spec fn reads_the_same(a: HumanReadable, b: HumanReadable) -> bool {
    &&& a.attype@ == b.attype@
    &&& a.title@ == b.title@
    &&& a.description@ == b.description@
}

/// Schemas are equivalent exactly when their subtypes are, their units and their human readable
/// fields are the same; their flags do not matter. Two that may be missing are exactly when
/// both are missing, or both are there and are.
pub proof fn schemas_are_compared_field_by_field(a: DataSchema, b: DataSchema)
    ensures
        a.equivalent(b) <==> {
            &&& a.data_schema.subtype.equivalent(b.data_schema.subtype)
            &&& a.data_schema.unit@ == b.data_schema.unit@
            &&& reads_the_same(a.human_readable, b.human_readable)
        },
        crate::td::schema::equivalent_opt_data_schema(Some(a), Some(b)) <==> a.equivalent(b),
        crate::td::schema::equivalent_opt_data_schema(None, None),
        !crate::td::schema::equivalent_opt_data_schema(Some(a), None),
        !crate::td::schema::equivalent_opt_data_schema(None, Some(b)),
{
    reveal_with_fuel(DataSchema::equivalent, 2);
    reveal_with_fuel(PartialDataSchema::equivalent, 2);
}

/// A truth that is taken for false where it is missing.
pub open spec fn is_set(flag: Option<bool>) -> bool {
    flag == Some(true)
}

/// Properties are equal exactly when their forms are equivalent in pairs, the subtypes, units
/// and human readable fields are, and both or neither are only read, and only written.
pub proof fn properties_are_compared_field_by_field(a: PropertyAffordance, b: PropertyAffordance)
    ensures
        a.same(b) <==> {
            &&& crate::td::equivalent_forms(
                a.interaction.forms@,
                b.interaction.forms@,
                crate::td::property_operations(
                    a.data_schema.read_only,
                    a.data_schema.write_only,
                ),
                crate::td::property_operations(
                    b.data_schema.read_only,
                    b.data_schema.write_only,
                ),
            )
            &&& a.data_schema.subtype.equivalent(b.data_schema.subtype)
            &&& a.data_schema.unit@ == b.data_schema.unit@
            &&& is_set(a.data_schema.read_only) == is_set(b.data_schema.read_only)
            &&& is_set(a.data_schema.write_only) == is_set(b.data_schema.write_only)
            &&& reads_the_same(a.human_readable, b.human_readable)
        },
{
    lemma_flag(a.data_schema.read_only);
    lemma_flag(b.data_schema.read_only);
    lemma_flag(a.data_schema.write_only);
    lemma_flag(b.data_schema.write_only);
}

proof fn lemma_flag(flag: Option<bool>)
    ensures
        crate::td::schema::flag_or(flag, Some(false)) == Some(is_set(flag)),
{
    if let Some(set) = flag {
        assert(set == (set == true));
    }
}

/// Both schemas are missing, or both are there and equivalent.
pub open spec fn both_or_neither(a: Option<DataSchema>, b: Option<DataSchema>) -> bool {
    &&& a is Some <==> b is Some
    &&& a is Some && b is Some ==> a->0.equivalent(b->0)
}

/// Actions are equal exactly when their forms are equivalent in pairs, where one that names no
/// operation invokes, their inputs and outputs are equivalent, and their synchronous flags and
/// human readable fields are the same.
pub proof fn actions_are_compared_field_by_field(a: ActionAffordance, b: ActionAffordance)
    ensures
        a.same(b) <==> {
            &&& crate::td::equivalent_forms(
                a.interaction.interaction.forms@,
                b.interaction.interaction.forms@,
                seq![Operation::InvokeAction],
                seq![Operation::InvokeAction],
            )
            &&& reads_the_same(a.interaction.human_readable, b.interaction.human_readable)
            &&& both_or_neither(a.input, b.input)
            &&& both_or_neither(a.output, b.output)
            &&& a.synchronous == b.synchronous
        },
{
}

/// Events are equal exactly when their forms are equivalent in pairs, where one that names no
/// operation subscribes and unsubscribes, their data are equivalent and their human readable
/// fields are the same.
pub proof fn events_are_compared_field_by_field(a: EventAffordance, b: EventAffordance)
    ensures
        a.same(b) <==> {
            &&& crate::td::equivalent_forms(
                a.interaction.interaction.forms@,
                b.interaction.interaction.forms@,
                seq![Operation::SubscribeEvent, Operation::UnsubscribeEvent],
                seq![Operation::SubscribeEvent, Operation::UnsubscribeEvent],
            )
            &&& reads_the_same(a.interaction.human_readable, b.interaction.human_readable)
            &&& both_or_neither(a.data, b.data)
        },
{
}

/// As many entries, and under the name of each an entry whose value agrees.
pub open spec fn agree_by_name<V>(
    left: NameMap<V>,
    right: NameMap<V>,
    agree: spec_fn(V, V) -> bool,
) -> bool {
    &&& left.entries@.len() == right.entries@.len()
    &&& forall|i: int|
        0 <= i < left.entries@.len() ==> has_value(
            right,
            (#[trigger] left.entries@[i]).0@,
            left.entries@[i].1,
            agree,
        )
}

/// A value stands under a name and a given one agrees with it.
pub open spec fn has_value<V>(
    map: NameMap<V>,
    name: Seq<char>,
    value: V,
    agree: spec_fn(V, V) -> bool,
) -> bool {
    exists|j: int|
        0 <= j < map.entries@.len() && (#[trigger] map.entries@[j]).0@ == name && agree(
            value,
            map.entries@[j].1,
        )
}

/// Maps are the same exactly when they have as many entries and the values agree under each
/// name.
pub proof fn maps_agree_by_name<V>(
    left: NameMap<V>,
    right: NameMap<V>,
    agree: spec_fn(V, V) -> bool,
)
    requires
        right.wf(),
    ensures
        crate::td::same_maps(left, right, agree) <==> agree_by_name(left, right, agree),
{
    assert forall|i: int| 0 <= i < left.entries@.len() implies has_value(
        right,
        (#[trigger] left.entries@[i]).0@,
        left.entries@[i].1,
        agree,
    ) == (crate::td::lookup(right.entries@, left.entries@[i].0@) matches Some(value) && agree(
        left.entries@[i].1,
        value,
    )) by {
        let name = left.entries@[i].0@;
        if crate::td::lookup(right.entries@, name) is Some {
            let j = crate::td::lemma_lookup_some(right.entries@, name);
            assert(right.entries@[j].0@ == name);
        }
        if has_value(right, name, left.entries@[i].1, agree) {
            let j = choose|j: int|
                0 <= j < right.entries@.len() && (#[trigger] right.entries@[j]).0@ == name && agree(
                    left.entries@[i].1,
                    right.entries@[j].1,
                );
            crate::td::lemma_lookup_first(right.entries@, j);
        }
    }
}

/// Descriptions are equal exactly when their identifiers, titles, security, descriptions and
/// types are the same, their own forms are the same one by one, and under the same names they
/// have the same security schemes and equal properties, actions and events.
pub proof fn descriptions_are_compared_field_by_field(a: ThingDescription, b: ThingDescription)
    requires
        b.security_definitions.wf(),
        b.properties.wf(),
        b.actions.wf(),
        b.events.wf(),
    ensures
        a.same(b) <==> {
            &&& a.id@ == b.id@
            &&& a.title@ == b.title@
            &&& a.security@ == b.security@
            &&& a.description@ == b.description@
            &&& texts(a.attype.0@) == texts(b.attype.0@)
            &&& a.forms@.len() == b.forms@.len()
            &&& forall|i: int| 0 <= i < a.forms@.len() ==> (#[trigger] a.forms@[i]).same(b.forms@[i])
            &&& agree_by_name(
                a.security_definitions,
                b.security_definitions,
                |x: SecuritySchemeDefinition, y: SecuritySchemeDefinition| x.scheme == y.scheme,
            )
            &&& agree_by_name(
                a.properties,
                b.properties,
                |x: PropertyAffordance, y: PropertyAffordance| x.same(y),
            )
            &&& agree_by_name(
                a.actions,
                b.actions,
                |x: ActionAffordance, y: ActionAffordance| x.same(y),
            )
            &&& agree_by_name(
                a.events,
                b.events,
                |x: EventAffordance, y: EventAffordance| x.same(y),
            )
        },
{
    let schemes = |x: SecuritySchemeDefinition, y: SecuritySchemeDefinition| x.scheme == y.scheme;
    let properties = |x: PropertyAffordance, y: PropertyAffordance| x.same(y);
    let actions = |x: ActionAffordance, y: ActionAffordance| x.same(y);
    let events = |x: EventAffordance, y: EventAffordance| x.same(y);
    maps_agree_by_name(a.security_definitions, b.security_definitions, schemes);
    maps_agree_by_name(a.properties, b.properties, properties);
    maps_agree_by_name(a.actions, b.actions, actions);
    maps_agree_by_name(a.events, b.events, events);
    lists_are_compared_by_their_texts(a.attype.0@, b.attype.0@, Seq::empty());
}

/// A map has a name exactly when an entry has it, and under it the value of that entry.
pub proof fn maps_hold_their_entries<V>(map: NameMap<V>, name: Seq<char>, value: V)
    requires
        map.wf(),
    ensures
        map@.contains_pair(name, value) <==> exists|i: int|
            0 <= i < map.entries@.len() && (#[trigger] map.entries@[i]).0@ == name
                && map.entries@[i].1 == value,
        map@.dom().contains(name) <==> exists|i: int|
            0 <= i < map.entries@.len() && (#[trigger] map.entries@[i]).0@ == name,
{
    if crate::td::lookup(map.entries@, name) is Some {
        let i = crate::td::lemma_lookup_some(map.entries@, name);
        assert(map.entries@[i].0@ == name);
    }
    if exists|i: int| 0 <= i < map.entries@.len() && (#[trigger] map.entries@[i]).0@ == name {
        let i = choose|i: int| 0 <= i < map.entries@.len() && (#[trigger] map.entries@[i]).0@
            == name;
        crate::td::lemma_lookup_first(map.entries@, i);
    }
}

} // verus!
