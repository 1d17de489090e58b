use std::borrow::Cow;
use std::ops::Deref;

use wot_test::lamp::{description, is_lamp_description};
use wot_test::number::Binary64;
use wot_test::td::{
    all_listed, are_equivalent_interaction_affordance, are_equivalent_opt_data_schema,
    default_property_operations, has_operation, has_text, same_operations, ActionAffordance,
    CowStr, DataSchema, DataSchemaSubtype, EventAffordance, Form, HumanReadable,
    IntegerDataSchema, InteractionAffordance, NameMap, NumberDataSchema, ObjectDataSchema,
    OneOrMany, Operation, PartialDataSchema, PartialDataSchemaDefaults,
    PartialInteractionAffordance, PropertyAffordance, SecurityScheme, SecuritySchemeDefinition,
};

fn form(href: &'static str, op: Option<Vec<Operation>>) -> Form {
    Form {
        href: CowStr::from(href),
        op: op.map(OneOrMany::from),
        subprotocol: None,
    }
}

fn schema(subtype: DataSchemaSubtype) -> PartialDataSchema {
    PartialDataSchema {
        subtype,
        unit: CowStr::default(),
        read_only: None,
        write_only: None,
        observable: false,
    }
}

fn data(subtype: DataSchemaSubtype) -> DataSchema {
    DataSchema {
        data_schema: schema(subtype),
        human_readable: HumanReadable::default(),
    }
}

fn property(forms: Vec<Form>, read_only: Option<bool>, write_only: Option<bool>) -> PropertyAffordance {
    PropertyAffordance {
        interaction: PartialInteractionAffordance { forms },
        data_schema: PartialDataSchema {
            read_only,
            write_only,
            ..schema(DataSchemaSubtype::Boolean)
        },
        human_readable: HumanReadable::default(),
    }
}

fn action(forms: Vec<Form>) -> ActionAffordance {
    ActionAffordance {
        interaction: InteractionAffordance {
            interaction: PartialInteractionAffordance { forms },
            human_readable: HumanReadable::default(),
        },
        ..ActionAffordance::default()
    }
}

fn event(forms: Vec<Form>) -> EventAffordance {
    EventAffordance {
        interaction: InteractionAffordance {
            interaction: PartialInteractionAffordance { forms },
            human_readable: HumanReadable::default(),
        },
        data: None,
    }
}

fn object(properties: Vec<(&'static str, DataSchemaSubtype)>, required: Vec<&'static str>) -> ObjectDataSchema {
    ObjectDataSchema {
        properties: NameMap {
            entries: properties
                .into_iter()
                .map(|(name, subtype)| (CowStr::from(name), data(subtype)))
                .collect(),
        },
        required: required.into_iter().map(CowStr::from).collect(),
    }
}

#[test]
fn texts_of_a_description_are_equal_whoever_owns_them() {
    let borrowed = CowStr::from("percent");
    let owned = CowStr::from("percent".to_string());
    assert_eq!(borrowed, owned);
    assert_eq!(owned.clone(), borrowed);
    assert_eq!(owned.as_str(), "percent");
    assert!(matches!(borrowed.deref(), Cow::Borrowed("percent")));
    assert_ne!(borrowed, CowStr::default());
    assert_eq!(CowStr::default().as_str(), "");
}

#[test]
fn one_or_many_elements_are_held() {
    let one: OneOrMany<Operation> = OneOrMany::from(Operation::InvokeAction);
    assert_eq!(one.as_slice(), &[Operation::InvokeAction]);
    let many = OneOrMany::from(vec![Operation::QueryAction, Operation::CancelAction]);
    let slice: &[Operation] = many.as_ref();
    assert_eq!(slice, &[Operation::QueryAction, Operation::CancelAction]);
    assert_eq!(many.len(), 2);
}

#[test]
fn operations_are_found_and_compared_in_order() {
    let operations = [Operation::ReadProperty, Operation::WriteProperty];
    assert!(has_operation(&operations, Operation::WriteProperty));
    assert!(!has_operation(&operations, Operation::InvokeAction));
    assert!(same_operations(&operations, &operations));
    assert!(!same_operations(&operations, &[Operation::WriteProperty, Operation::ReadProperty]));
    assert!(!same_operations(&operations, &operations[..1]));
}

#[test]
fn texts_are_found_in_lists() {
    let list = vec![CowStr::from("OnOffSwitch"), CowStr::from("Light")];
    assert!(has_text(&list, "Light"));
    assert!(!has_text(&list, "light"));
    assert!(all_listed(&vec![CowStr::from("Light"), CowStr::from("Light")], &list));
    assert!(!all_listed(&list, &vec![CowStr::from("Light")]));
}

#[test]
fn a_name_map_holds_one_value_for_each_name() {
    let mut map = NameMap::new();
    assert_eq!(map.len(), 0);
    assert_eq!(map.insert(CowStr::from("a"), 1), None);
    assert_eq!(map.insert(CowStr::from("b"), 2), None);
    assert_eq!(map.insert(CowStr::from("a"), 3), Some(1));
    assert_eq!(map.len(), 2);
    assert_eq!(map.get("a"), Some(&3));
    assert_eq!(map.get("b"), Some(&2));
    assert_eq!(map.get("c"), None);
    assert_eq!(map.entries[0].0.as_str(), "a");
}

#[test]
fn name_maps_are_equal_in_any_order() {
    let map = |entries: Vec<(&'static str, i32)>| NameMap {
        entries: entries
            .into_iter()
            .map(|(name, value)| (CowStr::from(name), value))
            .collect(),
    };
    assert!(map(vec![("a", 1), ("b", 2)]) == map(vec![("b", 2), ("a", 1)]));
    assert!(map(vec![("a", 1), ("b", 2)]) != map(vec![("a", 1)]));
    assert!(map(vec![("a", 1), ("b", 2)]) != map(vec![("a", 1), ("b", 3)]));
    assert!(map(vec![("a", 1), ("b", 2)]) != map(vec![("a", 1), ("c", 2)]));
}

#[test]
fn security_definitions_are_equal() {
    let definition = || SecuritySchemeDefinition {
        scheme: SecurityScheme::NoSecurityScheme,
    };
    assert_eq!(definition(), definition());
}

#[test]
fn forms_are_equivalent_with_the_default_operations_filled_in() {
    let silent = form("/a", None);
    let explicit = form("/a", Some(vec![Operation::InvokeAction]));
    let invoke = [Operation::InvokeAction];
    let query = [Operation::QueryAction];
    assert!(silent.is_equivalent(&explicit, &invoke, &invoke));
    assert!(explicit.is_equivalent(&silent, &invoke, &invoke));
    assert!(!silent.is_equivalent(&explicit, &query, &invoke));
    assert!(explicit.is_equivalent(&explicit, &query, &invoke));
    assert!(!silent.is_equivalent(&silent, &query, &invoke));
    assert!(!silent.is_equivalent(&form("/b", None), &invoke, &invoke));
}

#[test]
fn equivalent_forms_may_differ_in_their_subprotocol_but_equal_ones_may_not() {
    let plain = form("/a", None);
    let mut sse = form("/a", None);
    sse.subprotocol = Some(CowStr::from("sse"));
    assert!(plain.is_equivalent(&sse, &[], &[]));
    assert_ne!(plain, sse);
    assert_eq!(sse, Form { subprotocol: Some(CowStr::from("sse".to_string())), ..form("/a", None) });
    assert_ne!(plain, form("/a", Some(vec![])));
}

#[test]
fn forms_are_compared_as_far_as_both_lists_reach() {
    let short = PartialInteractionAffordance { forms: vec![form("/a", None)] };
    let long = PartialInteractionAffordance { forms: vec![form("/a", None), form("/b", None)] };
    let other = PartialInteractionAffordance { forms: vec![form("/b", None)] };
    let none = PartialInteractionAffordance::default();
    let invoke = |_: ()| -> &'static [Operation] { &[Operation::InvokeAction] };
    assert!(are_equivalent_interaction_affordance(&short, (), &long, (), invoke));
    assert!(are_equivalent_interaction_affordance(&none, (), &other, (), invoke));
    assert!(!are_equivalent_interaction_affordance(&short, (), &other, (), invoke));
}

#[test]
fn affordances_are_equivalent_with_equal_texts() {
    let plain = action(vec![form("/a", None)]).interaction;
    let mut titled = action(vec![form("/a", None)]).interaction;
    assert!(plain.is_equivalent(&titled, &[Operation::InvokeAction]));
    titled.human_readable.title = CowStr::from("Fade");
    assert!(!plain.is_equivalent(&titled, &[Operation::InvokeAction]));
}

#[test]
fn the_default_operations_of_a_property_follow_its_flags() {
    let operations = |read_only, write_only| {
        default_property_operations(&property(vec![], read_only, write_only).data_schema).to_vec()
    };
    let both = vec![Operation::ReadProperty, Operation::WriteProperty];
    assert_eq!(operations(None, None), both);
    assert_eq!(operations(Some(false), None), both);
    assert_eq!(operations(None, Some(false)), both);
    assert_eq!(operations(Some(true), None), vec![Operation::ReadProperty]);
    assert_eq!(operations(Some(true), Some(true)), vec![Operation::ReadProperty]);
    assert_eq!(operations(None, Some(true)), vec![Operation::WriteProperty]);
    assert_eq!(operations(Some(false), Some(true)), vec![Operation::WriteProperty]);
}

#[test]
fn properties_are_equal_with_the_defaults_filled_in() {
    let explicit = || form("/on", Some(vec![Operation::ReadProperty, Operation::WriteProperty]));
    let silent = property(vec![form("/on", None)], None, None);
    assert_eq!(silent, property(vec![explicit()], Some(false), Some(false)));
    assert_eq!(property(vec![explicit()], Some(false), None), silent);
    assert_ne!(silent, property(vec![explicit()], Some(true), None));
    assert_ne!(silent, property(vec![form("/on", Some(vec![Operation::ReadProperty]))], None, None));
    assert_ne!(property(vec![], None, None), property(vec![], None, Some(true)));
}

#[test]
fn the_observable_flag_of_a_property_is_not_compared() {
    let mut observable = property(vec![], None, None);
    observable.data_schema.observable = true;
    assert_eq!(observable, property(vec![], None, None));
}

#[test]
fn actions_are_equal_with_the_defaults_filled_in() {
    let silent = action(vec![form("/fade", None)]);
    assert_eq!(silent, action(vec![form("/fade", Some(vec![Operation::InvokeAction]))]));
    assert_ne!(silent, action(vec![form("/fade", Some(vec![Operation::QueryAction]))]));
    let mut synchronous = action(vec![form("/fade", None)]);
    synchronous.synchronous = Some(false);
    assert_ne!(silent, synchronous);
    let mut with_input = action(vec![form("/fade", None)]);
    with_input.input = Some(data(DataSchemaSubtype::Null));
    assert_ne!(silent, with_input);
    let mut with_output = action(vec![form("/fade", None)]);
    with_output.output = Some(data(DataSchemaSubtype::Null));
    assert_ne!(silent, with_output);
    assert_eq!(with_output, with_output);
}

#[test]
fn events_are_equal_with_the_defaults_filled_in() {
    let silent = event(vec![form("/events", None)]);
    let both = vec![Operation::SubscribeEvent, Operation::UnsubscribeEvent];
    assert_eq!(silent, event(vec![form("/events", Some(both))]));
    assert_ne!(silent, event(vec![form("/events", Some(vec![Operation::SubscribeEvent]))]));
    let mut with_data = event(vec![form("/events", None)]);
    with_data.data = Some(data(DataSchemaSubtype::Boolean));
    assert_ne!(silent, with_data);
}

#[test]
fn equal_affordances_carry_over_through_one_with_enough_forms() {
    let a = || action(vec![form("/a", None)]);
    let explicit = || action(vec![form("/a", Some(vec![Operation::InvokeAction]))]);
    let longer = || action(vec![form("/a", None), form("/b", None)]);
    assert!(a() == longer() && longer() == explicit() && a() == explicit());
    // The one in the middle has no forms, so it says nothing about the others.
    let none = action(vec![]);
    let b = action(vec![form("/b", None)]);
    assert!(a() == none && none == b && a() != b);
}

#[test]
fn object_schemas_are_equivalent_in_any_order() {
    let integer = || {
        DataSchemaSubtype::Integer(IntegerDataSchema {
            minimum: Some(0),
            maximum: Some(100),
        })
    };
    let a = object(
        vec![("level", integer()), ("name", DataSchemaSubtype::String)],
        vec!["level", "name"],
    );
    let b = object(
        vec![("name", DataSchemaSubtype::String), ("level", integer())],
        vec!["name", "level", "name"],
    );
    assert!(a.is_equivalent(&a));
    assert!(a.is_equivalent(&b) && b.is_equivalent(&a));
    assert!(!a.is_equivalent(&object(vec![("level", integer())], vec!["level", "name"])));
    assert!(!a.is_equivalent(&object(
        vec![("level", integer()), ("title", DataSchemaSubtype::String)],
        vec!["level", "name"],
    )));
    assert!(!a.is_equivalent(&object(
        vec![("level", integer()), ("name", DataSchemaSubtype::Null)],
        vec!["level", "name"],
    )));
    assert!(!a.is_equivalent(&object(
        vec![("level", integer()), ("name", DataSchemaSubtype::String)],
        vec!["level"],
    )));
}

#[test]
fn nested_object_schemas_are_compared_all_the_way_down() {
    let nest = |subtype| DataSchemaSubtype::Object(object(vec![("inner", subtype)], vec![]));
    let a = data(nest(nest(DataSchemaSubtype::Boolean)));
    let b = data(nest(nest(DataSchemaSubtype::Boolean)));
    let c = data(nest(nest(DataSchemaSubtype::Boolean)));
    let d = data(nest(nest(DataSchemaSubtype::Null)));
    assert!(a.is_equivalent(&a));
    assert!(a.is_equivalent(&b) && b.is_equivalent(&a));
    assert!(b.is_equivalent(&c) && a.is_equivalent(&c));
    assert!(!a.is_equivalent(&d) && !d.is_equivalent(&a));
}

#[test]
fn subtypes_that_differ_are_told_apart() {
    let number = |minimum: Option<f64>| {
        DataSchemaSubtype::Number(NumberDataSchema {
            minimum: minimum.map(|x| Binary64 { bits: x.to_bits() }),
            maximum: None,
        })
    };
    let subtypes = || {
        vec![
            DataSchemaSubtype::Array,
            DataSchemaSubtype::String,
            DataSchemaSubtype::Boolean,
            DataSchemaSubtype::Null,
            DataSchemaSubtype::Integer(IntegerDataSchema::default()),
            DataSchemaSubtype::Integer(IntegerDataSchema { minimum: Some(1), maximum: None }),
            number(None),
            number(Some(1.0)),
            DataSchemaSubtype::Object(object(vec![], vec![])),
        ]
    };
    for (i, a) in subtypes().iter().enumerate() {
        for (j, b) in subtypes().iter().enumerate() {
            assert_eq!(a.is_equivalent(b), i == j);
        }
    }
    assert!(number(Some(0.0)).is_equivalent(&number(Some(-0.0))));
    assert!(!number(Some(f64::NAN)).is_equivalent(&number(Some(f64::NAN))));
}

#[test]
fn the_flags_of_a_schema_count_where_defaults_are_given() {
    let flagged = |read_only| PartialDataSchema {
        read_only,
        ..schema(DataSchemaSubtype::Boolean)
    };
    let nothing = Some(PartialDataSchemaDefaults::default());
    let off = || {
        Some(PartialDataSchemaDefaults { read_only: &Some(false), write_only: &Some(false) })
    };
    assert!(flagged(Some(true)).is_equivalent(&flagged(None), None));
    assert!(!flagged(Some(true)).is_equivalent(&flagged(None), off()));
    assert!(flagged(Some(false)).is_equivalent(&flagged(None), off()));
    assert!(!flagged(Some(false)).is_equivalent(&flagged(None), nothing));
    let mut percent = schema(DataSchemaSubtype::Boolean);
    percent.unit = CowStr::from("percent");
    assert!(!percent.is_equivalent(&flagged(None), None));
}

#[test]
fn missing_schemas_are_only_equivalent_to_missing_ones() {
    let some = || Some(data(DataSchemaSubtype::Boolean));
    assert!(are_equivalent_opt_data_schema(&None, &None));
    assert!(are_equivalent_opt_data_schema(&some(), &some()));
    assert!(!are_equivalent_opt_data_schema(&some(), &None));
    assert!(!are_equivalent_opt_data_schema(&None, &some()));
}

#[test]
fn the_description_of_the_lamp_equals_itself() {
    assert_eq!(description(), description());
    assert!(is_lamp_description(&description()));
}

#[test]
fn a_description_equals_that_of_the_lamp_in_any_order() {
    let mut thing = description();
    thing.properties.entries.reverse();
    assert!(is_lamp_description(&thing));
    assert_eq!(description(), thing);
    assert_eq!(thing, description());
}

#[test]
fn a_description_that_fills_in_the_defaults_equals_that_of_the_lamp() {
    let mut thing = description();
    let on = &mut thing.properties.entries[0].1;
    on.data_schema.read_only = Some(false);
    on.interaction.forms[0].op = Some(OneOrMany(vec![
        Operation::ReadProperty,
        Operation::WriteProperty,
    ]));
    let overheated = &mut thing.events.entries[0].1;
    overheated.interaction.interaction.forms[0].op = Some(OneOrMany(vec![
        Operation::SubscribeEvent,
        Operation::UnsubscribeEvent,
    ]));
    assert!(is_lamp_description(&thing));
}

#[test]
fn a_description_that_differs_is_not_that_of_the_lamp() {
    let differs = |change: &dyn Fn(&mut wot_test::td::ThingDescription)| {
        let mut thing = description();
        change(&mut thing);
        !is_lamp_description(&thing) && thing != description() && description() != thing
    };
    assert!(differs(&|thing| thing.id = CowStr::from("urn:other")));
    assert!(differs(&|thing| thing.title = CowStr::default()));
    assert!(differs(&|thing| thing.security = CowStr::from("basic_sc")));
    assert!(differs(&|thing| thing.security_definitions = NameMap::new()));
    assert!(differs(&|thing| thing.attype.0.reverse()));
    assert!(differs(&|thing| thing.description = CowStr::default()));
    assert!(differs(&|thing| {
        thing.properties.entries.pop();
    }));
    assert!(differs(&|thing| {
        thing.actions.entries[0].1.interaction.human_readable.title = CowStr::default();
    }));
    assert!(differs(&|thing| thing.events.entries[0].1.data = None));
    assert!(differs(&|thing| thing.forms.reverse()));
    assert!(differs(&|thing| {
        thing.forms.pop();
    }));
}
