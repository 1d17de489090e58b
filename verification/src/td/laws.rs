//! What holds of every comparison of descriptions.

use vstd::prelude::*;

use crate::td::{
    ActionAffordance, DataSchema, DataSchemaSubtype, EventAffordance, Form, NameMap,
    ObjectDataSchema, Operation, PartialDataSchema, PropertyAffordance,
    SecuritySchemeDefinition, ThingDescription,
};

verus! {

/// The names in a map.
pub open spec fn names<V>(map: NameMap<V>) -> Seq<Seq<char>> {
    Seq::new(map.entries@.len(), |i: int| map.entries@[i].0@)
}

/// Where each name of one map is also in another with as many names, each name of the
/// other is in the one.
pub proof fn lemma_names_are_shared<V>(left: NameMap<V>, right: NameMap<V>, j: int) -> (i: int)
    requires
        left.wf(),
        right.wf(),
        left.entries@.len() == right.entries@.len(),
        forall|k: int|
            0 <= k < left.entries@.len() ==> crate::td::lookup(
                right.entries@,
                (#[trigger] left.entries@[k]).0@,
            ) is Some,
        0 <= j < right.entries@.len(),
    ensures
        0 <= i < left.entries@.len(),
        left.entries@[i].0@ == right.entries@[j].0@,
        crate::td::lookup(left.entries@, right.entries@[j].0@) == Some(left.entries@[i].1),
        crate::td::lookup(right.entries@, left.entries@[i].0@) == Some(right.entries@[j].1),
{
    let l = names(left);
    let r = names(right);
    assert(l.no_duplicates());
    assert(r.no_duplicates());
    l.unique_seq_to_set();
    r.unique_seq_to_set();
    vstd::seq_lib::seq_to_set_is_finite(l);
    vstd::seq_lib::seq_to_set_is_finite(r);
    assert(l.to_set().subset_of(r.to_set())) by {
        assert forall|name: Seq<char>| l.to_set().contains(name) implies r.to_set().contains(
            name,
        ) by {
            let k = choose|k: int| 0 <= k < l.len() && l[k] == name;
            assert(left.entries@[k].0@ == name);
            let m = crate::td::lemma_lookup_some(right.entries@, name);
            assert(r[m] == name);
        }
    }
    vstd::set_lib::lemma_subset_equality(l.to_set(), r.to_set());
    assert(r.to_set().contains(r[j]));
    assert(l.to_set().contains(r[j]));
    let i = choose|i: int| 0 <= i < l.len() && l[i] == r[j];
    crate::td::lemma_lookup_first(left.entries@, i);
    crate::td::lemma_lookup_first(right.entries@, j);
    i
}

/// Every object schema is equivalent to itself.
proof fn lemma_object_reflexive(a: ObjectDataSchema)
    requires
        a.wf(),
    ensures
        a.equivalent(a),
    decreases a,
{
    assert forall|i: int| 0 <= i < a.properties.entries@.len() implies (crate::td::lookup(
        a.properties.entries@,
        (#[trigger] a.properties.entries@[i]).0@,
    ) matches Some(schema) && a.properties.entries@[i].1.equivalent(schema)) by {
        crate::td::lemma_lookup_first(a.properties.entries@, i);
        assert(decreases_to!(a => a.properties.entries@[i].1));
        data_schema_equivalence_is_reflexive(a.properties.entries@[i].1);
    }
}

/// Every data schema is equivalent to itself.
pub proof fn data_schema_equivalence_is_reflexive(a: DataSchema)
    requires
        a.wf(),
    ensures
        a.equivalent(a),
    decreases a,
{
    match a.data_schema.subtype {
        DataSchemaSubtype::Object(object) => {
            lemma_object_reflexive(object);
        },
        _ => {},
    }
}

/// The equivalence of object schemas goes both ways.
proof fn lemma_object_symmetric(a: ObjectDataSchema, b: ObjectDataSchema)
    requires
        a.unique_names(),
        b.unique_names(),
        a.equivalent(b),
    ensures
        b.equivalent(a),
    decreases a,
{
    assert forall|j: int| 0 <= j < b.properties.entries@.len() implies (crate::td::lookup(
        a.properties.entries@,
        (#[trigger] b.properties.entries@[j]).0@,
    ) matches Some(schema) && b.properties.entries@[j].1.equivalent(schema)) by {
        let i = lemma_names_are_shared(a.properties, b.properties, j);
        assert(a.properties.entries@[i].1.equivalent(b.properties.entries@[j].1));
        assert(decreases_to!(a => a.properties.entries@[i].1));
        data_schema_equivalence_is_symmetric(
            a.properties.entries@[i].1,
            b.properties.entries@[j].1,
        );
    }
}

/// The equivalence of data schemas goes both ways.
pub proof fn data_schema_equivalence_is_symmetric(a: DataSchema, b: DataSchema)
    requires
        a.unique_names(),
        b.unique_names(),
        a.equivalent(b),
    ensures
        b.equivalent(a),
    decreases a,
{
    match (a.data_schema.subtype, b.data_schema.subtype) {
        (DataSchemaSubtype::Object(x), DataSchemaSubtype::Object(y)) => {
            lemma_object_symmetric(x, y);
        },
        _ => {},
    }
}

/// The equivalence of object schemas carries over.
proof fn lemma_object_transitive(a: ObjectDataSchema, b: ObjectDataSchema, c: ObjectDataSchema)
    requires
        a.equivalent(b),
        b.equivalent(c),
    ensures
        a.equivalent(c),
    decreases a,
{
    assert forall|i: int| 0 <= i < a.properties.entries@.len() implies (crate::td::lookup(
        c.properties.entries@,
        (#[trigger] a.properties.entries@[i]).0@,
    ) matches Some(schema) && a.properties.entries@[i].1.equivalent(schema)) by {
        let name = a.properties.entries@[i].0@;
        let j = crate::td::lemma_lookup_some(b.properties.entries@, name);
        assert(b.properties.entries@[j].0@ == name);
        assert(decreases_to!(a => a.properties.entries@[i].1));
        data_schema_equivalence_is_transitive(
            a.properties.entries@[i].1,
            b.properties.entries@[j].1,
            crate::td::lookup(c.properties.entries@, name)->0,
        );
    }
}

/// The equivalence of data schemas carries over.
pub proof fn data_schema_equivalence_is_transitive(a: DataSchema, b: DataSchema, c: DataSchema)
    requires
        a.equivalent(b),
        b.equivalent(c),
    ensures
        a.equivalent(c),
    decreases a,
{
    match (a.data_schema.subtype, b.data_schema.subtype, c.data_schema.subtype) {
        (
            DataSchemaSubtype::Object(x),
            DataSchemaSubtype::Object(y),
            DataSchemaSubtype::Object(z),
        ) => {
            lemma_object_transitive(x, y, z);
        },
        _ => {},
    }
}

/// Every partial data schema is equivalent to itself, its flags counted or not.
proof fn lemma_partial_reflexive(a: PartialDataSchema)
    requires
        a.wf(),
    ensures
        a.equivalent(a, None),
{
    match a.subtype {
        DataSchemaSubtype::Object(object) => {
            lemma_object_reflexive(object);
        },
        _ => {},
    }
}

proof fn lemma_partial_symmetric(a: PartialDataSchema, b: PartialDataSchema)
    requires
        a.unique_names(),
        b.unique_names(),
        a.equivalent(b, None),
    ensures
        b.equivalent(a, None),
{
    match (a.subtype, b.subtype) {
        (DataSchemaSubtype::Object(x), DataSchemaSubtype::Object(y)) => {
            lemma_object_symmetric(x, y);
        },
        _ => {},
    }
}

proof fn lemma_partial_transitive(
    a: PartialDataSchema,
    b: PartialDataSchema,
    c: PartialDataSchema,
)
    requires
        a.equivalent(b, None),
        b.equivalent(c, None),
    ensures
        a.equivalent(c, None),
{
    match (a.subtype, b.subtype, c.subtype) {
        (
            DataSchemaSubtype::Object(x),
            DataSchemaSubtype::Object(y),
            DataSchemaSubtype::Object(z),
        ) => {
            lemma_object_transitive(x, y, z);
        },
        _ => {},
    }
}

/// A form that names no operation is equivalent to one that names the default ones.
pub proof fn default_operations_may_be_left_out(
    silent: Form,
    explicit: Form,
    default_op: Seq<Operation>,
)
    requires
        silent.href@ == explicit.href@,
        silent.op is None,
        explicit.op matches Some(op) && op.0@ == default_op,
    ensures
        silent.equivalent(explicit, default_op, default_op),
        explicit.equivalent(silent, default_op, default_op),
{
}

/// Every property equals itself.
pub proof fn property_equality_is_reflexive(a: PropertyAffordance)
    requires
        a.wf(),
    ensures
        a.same(a),
{
    lemma_partial_reflexive(a.data_schema);
}

/// The equality of properties goes both ways.
pub proof fn property_equality_is_symmetric(a: PropertyAffordance, b: PropertyAffordance)
    requires
        a.unique_names(),
        b.unique_names(),
        a.same(b),
    ensures
        b.same(a),
{
    lemma_partial_symmetric(a.data_schema, b.data_schema);
    let left = a.interaction.forms@;
    let right = b.interaction.forms@;
    assert forall|i: int| 0 <= i < right.len() && i < left.len() implies (
    #[trigger] right[i]).equivalent(left[i], b.default_operations(), a.default_operations()) by {
        assert(left[i].equivalent(right[i], a.default_operations(), b.default_operations()));
    }
}

/// The equality of properties carries over, if the one in the middle has no fewer
/// forms than one of the others.
pub proof fn property_equality_is_transitive(
    a: PropertyAffordance,
    b: PropertyAffordance,
    c: PropertyAffordance,
)
    requires
        a.same(b),
        b.same(c),
        a.interaction.forms@.len() <= b.interaction.forms@.len()
            || c.interaction.forms@.len() <= b.interaction.forms@.len(),
    ensures
        a.same(c),
{
    lemma_partial_transitive(a.data_schema, b.data_schema, c.data_schema);
    let left = a.interaction.forms@;
    let middle = b.interaction.forms@;
    let right = c.interaction.forms@;
    assert forall|i: int| 0 <= i < left.len() && i < right.len() implies (
    #[trigger] left[i]).equivalent(right[i], a.default_operations(), c.default_operations()) by {
        assert(left[i].equivalent(middle[i], a.default_operations(), b.default_operations()));
        assert(middle[i].equivalent(right[i], b.default_operations(), c.default_operations()));
    }
}

proof fn lemma_forms_symmetric(left: Seq<Form>, right: Seq<Form>, op: Seq<Operation>)
    requires
        crate::td::equivalent_forms(left, right, op, op),
    ensures
        crate::td::equivalent_forms(right, left, op, op),
{
    assert forall|i: int| 0 <= i < right.len() && i < left.len() implies (
    #[trigger] right[i]).equivalent(left[i], op, op) by {
        assert(left[i].equivalent(right[i], op, op));
    }
}

proof fn lemma_forms_transitive(
    left: Seq<Form>,
    middle: Seq<Form>,
    right: Seq<Form>,
    op: Seq<Operation>,
)
    requires
        crate::td::equivalent_forms(left, middle, op, op),
        crate::td::equivalent_forms(middle, right, op, op),
        left.len() <= middle.len() || right.len() <= middle.len(),
    ensures
        crate::td::equivalent_forms(left, right, op, op),
{
    assert forall|i: int| 0 <= i < left.len() && i < right.len() implies (
    #[trigger] left[i]).equivalent(right[i], op, op) by {
        assert(left[i].equivalent(middle[i], op, op));
        assert(middle[i].equivalent(right[i], op, op));
    }
}

/// Every action equals itself.
pub proof fn action_equality_is_reflexive(a: ActionAffordance)
    requires
        a.wf(),
    ensures
        a.same(a),
{
    if let Some(input) = a.input {
        data_schema_equivalence_is_reflexive(input);
    }
    if let Some(output) = a.output {
        data_schema_equivalence_is_reflexive(output);
    }
}

/// The equality of actions goes both ways.
pub proof fn action_equality_is_symmetric(a: ActionAffordance, b: ActionAffordance)
    requires
        a.unique_names(),
        b.unique_names(),
        a.same(b),
    ensures
        b.same(a),
{
    lemma_forms_symmetric(
        a.interaction.interaction.forms@,
        b.interaction.interaction.forms@,
        seq![Operation::InvokeAction],
    );
    if a.input is Some {
        data_schema_equivalence_is_symmetric(a.input->0, b.input->0);
    }
    if a.output is Some {
        data_schema_equivalence_is_symmetric(a.output->0, b.output->0);
    }
}

/// The equality of actions carries over, if the one in the middle has no fewer forms
/// than one of the others.
pub proof fn action_equality_is_transitive(
    a: ActionAffordance,
    b: ActionAffordance,
    c: ActionAffordance,
)
    requires
        a.same(b),
        b.same(c),
        a.interaction.interaction.forms@.len() <= b.interaction.interaction.forms@.len()
            || c.interaction.interaction.forms@.len() <= b.interaction.interaction.forms@.len(),
    ensures
        a.same(c),
{
    lemma_forms_transitive(
        a.interaction.interaction.forms@,
        b.interaction.interaction.forms@,
        c.interaction.interaction.forms@,
        seq![Operation::InvokeAction],
    );
    if a.input is Some {
        data_schema_equivalence_is_transitive(a.input->0, b.input->0, c.input->0);
    }
    if a.output is Some {
        data_schema_equivalence_is_transitive(a.output->0, b.output->0, c.output->0);
    }
}

/// Every event equals itself.
pub proof fn event_equality_is_reflexive(a: EventAffordance)
    requires
        a.wf(),
    ensures
        a.same(a),
{
    if let Some(data) = a.data {
        data_schema_equivalence_is_reflexive(data);
    }
}

/// The equality of events goes both ways.
pub proof fn event_equality_is_symmetric(a: EventAffordance, b: EventAffordance)
    requires
        a.unique_names(),
        b.unique_names(),
        a.same(b),
    ensures
        b.same(a),
{
    lemma_forms_symmetric(
        a.interaction.interaction.forms@,
        b.interaction.interaction.forms@,
        seq![Operation::SubscribeEvent, Operation::UnsubscribeEvent],
    );
    if a.data is Some {
        data_schema_equivalence_is_symmetric(a.data->0, b.data->0);
    }
}

/// The equality of events carries over, if the one in the middle has no fewer forms
/// than one of the others.
pub proof fn event_equality_is_transitive(
    a: EventAffordance,
    b: EventAffordance,
    c: EventAffordance,
)
    requires
        a.same(b),
        b.same(c),
        a.interaction.interaction.forms@.len() <= b.interaction.interaction.forms@.len()
            || c.interaction.interaction.forms@.len() <= b.interaction.interaction.forms@.len(),
    ensures
        a.same(c),
{
    lemma_forms_transitive(
        a.interaction.interaction.forms@,
        b.interaction.interaction.forms@,
        c.interaction.interaction.forms@,
        seq![Operation::SubscribeEvent, Operation::UnsubscribeEvent],
    );
    if a.data is Some {
        data_schema_equivalence_is_transitive(a.data->0, b.data->0, c.data->0);
    }
}

/// Maps are compared by name, whatever the order of their entries: they are the same
/// exactly when they have the same names and the values under each name agree.
pub proof fn maps_are_compared_by_name<V>(
    left: NameMap<V>,
    right: NameMap<V>,
    agree: spec_fn(V, V) -> bool,
)
    requires
        left.wf(),
        right.wf(),
    ensures
        crate::td::same_maps(left, right, agree) <==> {
            &&& left@.dom() =~= right@.dom()
            &&& forall|name: Seq<char>| #[trigger]
                left@.dom().contains(name) ==> agree(left@[name], right@[name])
        },
{
    if crate::td::same_maps(left, right, agree) {
        assert forall|name: Seq<char>| left@.dom().contains(name) implies right@.dom().contains(
            name,
        ) && agree(left@[name], right@[name]) by {
            let i = crate::td::lemma_lookup_some(left.entries@, name);
            assert(left.entries@[i].0@ == name);
        }
        assert forall|name: Seq<char>| right@.dom().contains(name) implies left@.dom().contains(
            name,
        ) by {
            let j = crate::td::lemma_lookup_some(right.entries@, name);
            let i = lemma_names_are_shared(left, right, j);
        }
    }
    if left@.dom() =~= right@.dom() && forall|name: Seq<char>| #[trigger]
        left@.dom().contains(name) ==> agree(left@[name], right@[name]) {
        assert forall|k: int| 0 <= k < left.entries@.len() implies (crate::td::lookup(
            right.entries@,
            (#[trigger] left.entries@[k]).0@,
        ) matches Some(v) && agree(left.entries@[k].1, v)) by {
            crate::td::lemma_lookup_first(left.entries@, k);
            assert(left@.dom().contains(left.entries@[k].0@));
            assert(right@.dom().contains(left.entries@[k].0@));
        }
        lemma_as_many_names(left);
        lemma_as_many_names(right);
    }
}

/// A map has as many names as entries.
proof fn lemma_as_many_names<V>(map: NameMap<V>)
    requires
        map.wf(),
    ensures
        map@.dom().len() == map.entries@.len(),
{
    let all = names(map);
    assert(all.no_duplicates());
    all.unique_seq_to_set();
    assert(map@.dom() =~= all.to_set()) by {
        assert forall|name: Seq<char>| map@.dom().contains(name) implies all.to_set().contains(
            name,
        ) by {
            let i = crate::td::lemma_lookup_some(map.entries@, name);
            assert(all[i] == name);
        }
        assert forall|name: Seq<char>| all.to_set().contains(name) implies map@.dom().contains(
            name,
        ) by {
            let i = choose|i: int| 0 <= i < all.len() && all[i] == name;
            assert(map.entries@[i].0@ == name);
            crate::td::lemma_lookup_first(map.entries@, i);
        }
    }
}

/// Maps whose values agree with themselves are the same as themselves.
pub proof fn lemma_maps_reflexive<V>(map: NameMap<V>, agree: spec_fn(V, V) -> bool)
    requires
        map.wf(),
        forall|i: int|
            0 <= i < map.entries@.len() ==> agree(
                (#[trigger] map.entries@[i]).1,
                map.entries@[i].1,
            ),
    ensures
        crate::td::same_maps(map, map, agree),
{
    assert forall|k: int| 0 <= k < map.entries@.len() implies (crate::td::lookup(
        map.entries@,
        (#[trigger] map.entries@[k]).0@,
    ) matches Some(v) && agree(map.entries@[k].1, v)) by {
        crate::td::lemma_lookup_first(map.entries@, k);
    }
}

/// Whether maps are the same goes both ways where that of their values does.
pub proof fn lemma_maps_symmetric<V>(
    left: NameMap<V>,
    right: NameMap<V>,
    agree: spec_fn(V, V) -> bool,
)
    requires
        left.wf(),
        right.wf(),
        crate::td::same_maps(left, right, agree),
        forall|i: int, j: int|
            0 <= i < left.entries@.len() && 0 <= j < right.entries@.len() && #[trigger] agree(
                left.entries@[i].1,
                right.entries@[j].1,
            ) ==> agree(right.entries@[j].1, left.entries@[i].1),
    ensures
        crate::td::same_maps(right, left, agree),
{
    assert forall|j: int| 0 <= j < right.entries@.len() implies (crate::td::lookup(
        left.entries@,
        (#[trigger] right.entries@[j]).0@,
    ) matches Some(v) && agree(right.entries@[j].1, v)) by {
        let i = lemma_names_are_shared(left, right, j);
        assert(agree(left.entries@[i].1, right.entries@[j].1));
    }
}

/// Whether maps are the same carries over where that of the values under each name
/// does.
pub proof fn lemma_maps_transitive<V>(
    a: NameMap<V>,
    b: NameMap<V>,
    c: NameMap<V>,
    agree: spec_fn(V, V) -> bool,
)
    requires
        crate::td::same_maps(a, b, agree),
        crate::td::same_maps(b, c, agree),
        forall|i: int, j: int, k: int|
            0 <= i < a.entries@.len() && 0 <= j < b.entries@.len() && 0 <= k < c.entries@.len()
                && a.entries@[i].0@ == b.entries@[j].0@ && b.entries@[j].0@ == c.entries@[k].0@
                && #[trigger] agree(
                a.entries@[i].1,
                b.entries@[j].1,
            ) && #[trigger] agree(b.entries@[j].1, c.entries@[k].1) ==> agree(
                a.entries@[i].1,
                c.entries@[k].1,
            ),
    ensures
        crate::td::same_maps(a, c, agree),
{
    assert forall|i: int| 0 <= i < a.entries@.len() implies (crate::td::lookup(
        c.entries@,
        (#[trigger] a.entries@[i]).0@,
    ) matches Some(v) && agree(a.entries@[i].1, v)) by {
        let name = a.entries@[i].0@;
        let j = crate::td::lemma_lookup_some(b.entries@, name);
        assert(b.entries@[j].0@ == name);
        let k = crate::td::lemma_lookup_some(c.entries@, name);
        assert(agree(a.entries@[i].1, b.entries@[j].1));
        assert(agree(b.entries@[j].1, c.entries@[k].1));
    }
}

/// Every description equals itself.
pub proof fn description_equality_is_reflexive(a: ThingDescription)
    requires
        a.wf(),
    ensures
        a.same(a),
{
    let schemes = |x: SecuritySchemeDefinition, y: SecuritySchemeDefinition| x.scheme == y.scheme;
    let properties = |x: PropertyAffordance, y: PropertyAffordance| x.same(y);
    let actions = |x: ActionAffordance, y: ActionAffordance| x.same(y);
    let events = |x: EventAffordance, y: EventAffordance| x.same(y);
    assert forall|i: int| 0 <= i < a.properties.entries@.len() implies properties(
        (#[trigger] a.properties.entries@[i]).1,
        a.properties.entries@[i].1,
    ) by {
        property_equality_is_reflexive(a.properties.entries@[i].1);
    }
    assert forall|i: int| 0 <= i < a.actions.entries@.len() implies actions(
        (#[trigger] a.actions.entries@[i]).1,
        a.actions.entries@[i].1,
    ) by {
        action_equality_is_reflexive(a.actions.entries@[i].1);
    }
    assert forall|i: int| 0 <= i < a.events.entries@.len() implies events(
        (#[trigger] a.events.entries@[i]).1,
        a.events.entries@[i].1,
    ) by {
        event_equality_is_reflexive(a.events.entries@[i].1);
    }
    lemma_maps_reflexive(a.security_definitions, schemes);
    lemma_maps_reflexive(a.properties, properties);
    lemma_maps_reflexive(a.actions, actions);
    lemma_maps_reflexive(a.events, events);
}

/// The equality of descriptions goes both ways.
pub proof fn description_equality_is_symmetric(a: ThingDescription, b: ThingDescription)
    requires
        a.unique_names(),
        b.unique_names(),
        a.same(b),
    ensures
        b.same(a),
{
    let schemes = |x: SecuritySchemeDefinition, y: SecuritySchemeDefinition| x.scheme == y.scheme;
    let properties = |x: PropertyAffordance, y: PropertyAffordance| x.same(y);
    let actions = |x: ActionAffordance, y: ActionAffordance| x.same(y);
    let events = |x: EventAffordance, y: EventAffordance| x.same(y);
    assert forall|i: int, j: int|
        0 <= i < a.properties.entries@.len() && 0 <= j < b.properties.entries@.len()
            && #[trigger] properties(
            a.properties.entries@[i].1,
            b.properties.entries@[j].1,
        ) implies properties(b.properties.entries@[j].1, a.properties.entries@[i].1) by {
        property_equality_is_symmetric(a.properties.entries@[i].1, b.properties.entries@[j].1);
    }
    assert forall|i: int, j: int|
        0 <= i < a.actions.entries@.len() && 0 <= j < b.actions.entries@.len()
            && #[trigger] actions(
            a.actions.entries@[i].1,
            b.actions.entries@[j].1,
        ) implies actions(b.actions.entries@[j].1, a.actions.entries@[i].1) by {
        action_equality_is_symmetric(a.actions.entries@[i].1, b.actions.entries@[j].1);
    }
    assert forall|i: int, j: int|
        0 <= i < a.events.entries@.len() && 0 <= j < b.events.entries@.len() && #[trigger] events(
            a.events.entries@[i].1,
            b.events.entries@[j].1,
        ) implies events(b.events.entries@[j].1, a.events.entries@[i].1) by {
        event_equality_is_symmetric(a.events.entries@[i].1, b.events.entries@[j].1);
    }
    lemma_maps_symmetric(a.security_definitions, b.security_definitions, schemes);
    lemma_maps_symmetric(a.properties, b.properties, properties);
    lemma_maps_symmetric(a.actions, b.actions, actions);
    lemma_maps_symmetric(a.events, b.events, events);
    assert forall|i: int| 0 <= i < b.forms@.len() implies (#[trigger] b.forms@[i]).same(
        a.forms@[i],
    ) by {
        assert(a.forms@[i].same(b.forms@[i]));
    }
    assert forall|i: int| 0 <= i < b.attype.0@.len() implies #[trigger] b.attype.0@[i]@
        == a.attype.0@[i]@ by {
        assert(a.attype.0@[i]@ == b.attype.0@[i]@);
    }
}

/// Each property, action and event of one description has no fewer forms than the one
/// under the same name in another.
pub open spec fn has_forms_of(b: ThingDescription, a: ThingDescription) -> bool {
    &&& forall|i: int, j: int|
        #![trigger a.properties.entries@[i], b.properties.entries@[j]]
        0 <= i < a.properties.entries@.len() && 0 <= j < b.properties.entries@.len()
            && a.properties.entries@[i].0@ == b.properties.entries@[j].0@
            ==> a.properties.entries@[i].1.interaction.forms@.len()
            <= b.properties.entries@[j].1.interaction.forms@.len()
    &&& forall|i: int, j: int|
        #![trigger a.actions.entries@[i], b.actions.entries@[j]]
        0 <= i < a.actions.entries@.len() && 0 <= j < b.actions.entries@.len()
            && a.actions.entries@[i].0@ == b.actions.entries@[j].0@
            ==> a.actions.entries@[i].1.interaction.interaction.forms@.len()
            <= b.actions.entries@[j].1.interaction.interaction.forms@.len()
    &&& forall|i: int, j: int|
        #![trigger a.events.entries@[i], b.events.entries@[j]]
        0 <= i < a.events.entries@.len() && 0 <= j < b.events.entries@.len()
            && a.events.entries@[i].0@ == b.events.entries@[j].0@
            ==> a.events.entries@[i].1.interaction.interaction.forms@.len()
            <= b.events.entries@[j].1.interaction.interaction.forms@.len()
}

/// The equality of descriptions carries over, if nothing in the one in the middle has
/// fewer forms than in one of the others.
pub proof fn description_equality_is_transitive(
    a: ThingDescription,
    b: ThingDescription,
    c: ThingDescription,
)
    requires
        a.same(b),
        b.same(c),
        has_forms_of(b, a) || has_forms_of(b, c),
    ensures
        a.same(c),
{
    let schemes = |x: SecuritySchemeDefinition, y: SecuritySchemeDefinition| x.scheme == y.scheme;
    let properties = |x: PropertyAffordance, y: PropertyAffordance| x.same(y);
    let actions = |x: ActionAffordance, y: ActionAffordance| x.same(y);
    let events = |x: EventAffordance, y: EventAffordance| x.same(y);
    assert forall|i: int, j: int, k: int|
        0 <= i < a.properties.entries@.len() && 0 <= j < b.properties.entries@.len() && 0 <= k
            < c.properties.entries@.len() && a.properties.entries@[i].0@
            == b.properties.entries@[j].0@ && b.properties.entries@[j].0@
            == c.properties.entries@[k].0@ && #[trigger] properties(
            a.properties.entries@[i].1,
            b.properties.entries@[j].1,
        ) && #[trigger] properties(
            b.properties.entries@[j].1,
            c.properties.entries@[k].1,
        ) implies properties(a.properties.entries@[i].1, c.properties.entries@[k].1) by {
        property_equality_is_transitive(
            a.properties.entries@[i].1,
            b.properties.entries@[j].1,
            c.properties.entries@[k].1,
        );
    }
    assert forall|i: int, j: int, k: int|
        0 <= i < a.actions.entries@.len() && 0 <= j < b.actions.entries@.len() && 0 <= k
            < c.actions.entries@.len() && a.actions.entries@[i].0@ == b.actions.entries@[j].0@
            && b.actions.entries@[j].0@ == c.actions.entries@[k].0@ && #[trigger] actions(
            a.actions.entries@[i].1,
            b.actions.entries@[j].1,
        ) && #[trigger] actions(b.actions.entries@[j].1, c.actions.entries@[k].1) implies actions(
        a.actions.entries@[i].1,
        c.actions.entries@[k].1,
    ) by {
        action_equality_is_transitive(
            a.actions.entries@[i].1,
            b.actions.entries@[j].1,
            c.actions.entries@[k].1,
        );
    }
    assert forall|i: int, j: int, k: int|
        0 <= i < a.events.entries@.len() && 0 <= j < b.events.entries@.len() && 0 <= k
            < c.events.entries@.len() && a.events.entries@[i].0@ == b.events.entries@[j].0@
            && b.events.entries@[j].0@ == c.events.entries@[k].0@ && #[trigger] events(
            a.events.entries@[i].1,
            b.events.entries@[j].1,
        ) && #[trigger] events(b.events.entries@[j].1, c.events.entries@[k].1) implies events(
        a.events.entries@[i].1,
        c.events.entries@[k].1,
    ) by {
        event_equality_is_transitive(
            a.events.entries@[i].1,
            b.events.entries@[j].1,
            c.events.entries@[k].1,
        );
    }
    lemma_maps_transitive(
        a.security_definitions,
        b.security_definitions,
        c.security_definitions,
        schemes,
    );
    lemma_maps_transitive(a.properties, b.properties, c.properties, properties);
    lemma_maps_transitive(a.actions, b.actions, c.actions, actions);
    lemma_maps_transitive(a.events, b.events, c.events, events);
    assert forall|i: int| 0 <= i < a.forms@.len() implies (#[trigger] a.forms@[i]).same(
        c.forms@[i],
    ) by {
        assert(a.forms@[i].same(b.forms@[i]));
        assert(b.forms@[i].same(c.forms@[i]));
    }
    assert forall|i: int| 0 <= i < a.attype.0@.len() implies #[trigger] a.attype.0@[i]@
        == c.attype.0@[i]@ by {
        assert(a.attype.0@[i]@ == b.attype.0@[i]@);
        assert(b.attype.0@[i]@ == c.attype.0@[i]@);
    }
}

} // verus!
