//! The lamp that is tested.

use vstd::prelude::*;

use crate::td::{
    ActionAffordance, CowStr, DataSchema, DataSchemaSubtype, EventAffordance, Form,
    HumanReadable, IntegerDataSchema, InteractionAffordance, NameMap, NumberDataSchema,
    ObjectDataSchema, OneOrMany, Operation, PartialDataSchema, PartialInteractionAffordance,
    PropertyAffordance, SecurityScheme, SecuritySchemeDefinition, ThingDescription,
};

pub mod laws;

verus! {

/// The brightness of a lamp.
pub type Brightness = i64;

/// Whether a lamp is on.
pub type Status = bool;

/// A form with the given reference, operations and subprotocol.
pub open spec fn form_is(
    form: Form,
    href: Seq<char>,
    op: Option<Seq<Operation>>,
    subprotocol: Option<Seq<char>>,
) -> bool {
    &&& form.href@ == href
    &&& match (form.op, op) {
        (Some(operations), Some(op)) => operations.0@ =~= op,
        (None, None) => true,
        _ => false,
    }
    &&& match (form.subprotocol, subprotocol) {
        (Some(text), Some(subprotocol)) => text@ == subprotocol,
        (None, None) => true,
        _ => false,
    }
}

/// Human readable fields with the given texts.
pub open spec fn human_is(
    human: HumanReadable,
    attype: Seq<char>,
    title: Seq<char>,
    description: Seq<char>,
) -> bool {
    &&& human.attype@ == attype
    &&& human.title@ == title
    &&& human.description@ == description
}

/// Human readable fields that are all empty.
pub open spec fn human_is_empty(human: HumanReadable) -> bool {
    human_is(human, Seq::empty(), Seq::empty(), Seq::empty())
}

/// A schema with the given unit and no read-only or write-only flag.
pub open spec fn plain_schema(schema: PartialDataSchema, unit: Seq<char>, observable: bool) -> bool {
    &&& schema.unit@ == unit
    &&& schema.read_only is None
    &&& schema.write_only is None
    &&& schema.observable == observable
}

/// A schema of integers with the given unit and bounds.
pub open spec fn integer_schema(
    schema: PartialDataSchema,
    minimum: Option<i64>,
    maximum: Option<i64>,
    unit: Seq<char>,
    observable: bool,
) -> bool {
    &&& plain_schema(schema, unit, observable)
    &&& schema.subtype == DataSchemaSubtype::Integer(IntegerDataSchema { minimum, maximum })
}

/// The property that tells whether the lamp is on.
pub open spec fn is_on_property(property: PropertyAffordance) -> bool {
    &&& property.interaction.forms@.len() == 1
    &&& form_is(property.interaction.forms@[0], "/properties/on"@, None, None)
    &&& plain_schema(property.data_schema, Seq::empty(), false)
    &&& property.data_schema.subtype is Boolean
    &&& human_is(
        property.human_readable,
        "OnOffProperty"@,
        "On/Off"@,
        "Whether the lamp is turned on"@,
    )
}

/// The property that tells how bright the lamp is.
pub open spec fn is_brightness_property(property: PropertyAffordance) -> bool {
    &&& property.interaction.forms@.len() == 2
    &&& form_is(
        property.interaction.forms@[0],
        "/properties/brightness"@,
        Some(seq![Operation::ReadProperty, Operation::WriteProperty]),
        None,
    )
    &&& form_is(
        property.interaction.forms@[1],
        "/properties/brightness/observe"@,
        Some(seq![Operation::ObserveProperty, Operation::UnobserveProperty]),
        Some("sse"@),
    )
    &&& integer_schema(property.data_schema, Some(0), Some(100), "percent"@, true)
    &&& human_is(
        property.human_readable,
        "BrightnessProperty"@,
        "Brightness"@,
        "The level of light from 0-100"@,
    )
}

/// The input of the action that fades the lamp.
pub open spec fn is_fade_input(input: DataSchema) -> bool {
    &&& plain_schema(input.data_schema, Seq::empty(), false)
    &&& human_is_empty(input.human_readable)
    &&& input.data_schema.subtype matches DataSchemaSubtype::Object(object)
    &&& object.properties.entries@.len() == 2
    &&& object.properties.entries@[0].0@ == "brightness"@
    &&& integer_schema(
        object.properties.entries@[0].1.data_schema,
        Some(0),
        Some(100),
        "percent"@,
        false,
    )
    &&& human_is_empty(object.properties.entries@[0].1.human_readable)
    &&& object.properties.entries@[1].0@ == "duration"@
    &&& integer_schema(
        object.properties.entries@[1].1.data_schema,
        Some(1),
        None,
        "milliseconds"@,
        false,
    )
    &&& human_is_empty(object.properties.entries@[1].1.human_readable)
    &&& object.required@.len() == 2
    &&& object.required@[0]@ == "brightness"@
    &&& object.required@[1]@ == "duration"@
}

/// The action that fades the lamp.
pub open spec fn is_fade_action(action: ActionAffordance) -> bool {
    &&& action.interaction.interaction.forms@.len() == 2
    &&& form_is(
        action.interaction.interaction.forms@[0],
        "/actions/fade"@,
        Some(seq![Operation::InvokeAction]),
        None,
    )
    &&& form_is(
        action.interaction.interaction.forms@[1],
        "/actions/fade/{action_id}"@,
        Some(seq![Operation::QueryAction, Operation::CancelAction]),
        None,
    )
    &&& human_is(
        action.interaction.human_readable,
        Seq::empty(),
        "Fade"@,
        "Fade the lamp to a given level"@,
    )
    &&& action.input matches Some(input) && is_fade_input(input)
    &&& action.output is None
    &&& action.synchronous is None
}

/// The event of an overheated lamp.
pub open spec fn is_overheated_event(event: EventAffordance) -> bool {
    &&& event.interaction.interaction.forms@.len() == 1
    &&& form_is(
        event.interaction.interaction.forms@[0],
        "/events/overheated"@,
        None,
        Some("sse"@),
    )
    &&& human_is(
        event.interaction.human_readable,
        Seq::empty(),
        Seq::empty(),
        "The lamp has exceeded its safe operating temperature"@,
    )
    &&& event.data matches Some(data)
    &&& plain_schema(data.data_schema, "degree celsius"@, false)
    &&& data.data_schema.subtype == DataSchemaSubtype::Number(
        NumberDataSchema { minimum: None, maximum: None },
    )
    &&& human_is_empty(data.human_readable)
}

/// The forms of the lamp as a whole.
pub open spec fn are_lamp_forms(forms: Seq<Form>) -> bool {
    &&& forms.len() == 4
    &&& form_is(forms[0], "/properties"@, Some(seq![Operation::ReadAllProperties]), None)
    &&& form_is(
        forms[1],
        "/properties/observe"@,
        Some(seq![Operation::ObserveAllProperties, Operation::UnobserveAllProperties]),
        Some("sse"@),
    )
    &&& form_is(forms[2], "/actions"@, Some(seq![Operation::QueryAllActions]), None)
    &&& form_is(
        forms[3],
        "/events"@,
        Some(seq![Operation::SubscribeAllEvents, Operation::UnsubscribeAllEvents]),
        Some("sse"@),
    )
}

/// The description of the lamp.
pub open spec fn is_lamp(thing: ThingDescription) -> bool {
    &&& thing.id@ == "urn:dev:ops:my-lamp-1234"@
    &&& thing.title@ == "My Lamp"@
    &&& thing.security@ == "nosec_sc"@
    &&& thing.security_definitions.entries@.len() == 1
    &&& thing.security_definitions.entries@[0].0@ == "nosec_sc"@
    &&& thing.security_definitions.entries@[0].1.scheme is NoSecurityScheme
    &&& thing.attype.0@.len() == 2
    &&& thing.attype.0@[0]@ == "OnOffSwitch"@
    &&& thing.attype.0@[1]@ == "Light"@
    &&& thing.description@ == "A web connected lamp"@
    &&& thing.properties.entries@.len() == 2
    &&& thing.properties.entries@[0].0@ == "on"@
    &&& is_on_property(thing.properties.entries@[0].1)
    &&& thing.properties.entries@[1].0@ == "brightness"@
    &&& is_brightness_property(thing.properties.entries@[1].1)
    &&& thing.actions.entries@.len() == 1
    &&& thing.actions.entries@[0].0@ == "fade"@
    &&& is_fade_action(thing.actions.entries@[0].1)
    &&& thing.events.entries@.len() == 1
    &&& thing.events.entries@[0].0@ == "overheated"@
    &&& is_overheated_event(thing.events.entries@[0].1)
    &&& are_lamp_forms(thing.forms@)
}

fn human(
    attype: &'static str,
    title: &'static str,
    description: &'static str,
) -> (r: HumanReadable)
    ensures
        human_is(r, attype@, title@, description@),
{
    HumanReadable {
        attype: CowStr::from(attype),
        title: CowStr::from(title),
        description: CowStr::from(description),
    }
}

fn form(href: &'static str, op: Vec<Operation>) -> (r: Form)
    ensures
        form_is(r, href@, Some(op@), None),
{
    Form { href: CowStr::from(href), op: Some(OneOrMany(op)), subprotocol: None }
}

fn event_form(href: &'static str, op: Vec<Operation>) -> (r: Form)
    ensures
        form_is(r, href@, Some(op@), Some("sse"@)),
{
    Form {
        href: CowStr::from(href),
        op: Some(OneOrMany(op)),
        subprotocol: Some(CowStr::from("sse")),
    }
}

fn schema(subtype: DataSchemaSubtype, unit: CowStr, observable: bool) -> (r: PartialDataSchema)
    ensures
        plain_schema(r, unit@, observable),
        r.subtype == subtype,
{
    PartialDataSchema { subtype, unit, read_only: None, write_only: None, observable }
}

fn integers(
    minimum: Option<i64>,
    maximum: Option<i64>,
    unit: &'static str,
    observable: bool,
) -> (r: PartialDataSchema)
    ensures
        integer_schema(r, minimum, maximum, unit@, observable),
{
    schema(
        DataSchemaSubtype::Integer(IntegerDataSchema { minimum, maximum }),
        CowStr::from(unit),
        observable,
    )
}

fn on_property() -> (r: PropertyAffordance)
    ensures
        is_on_property(r),
{
    PropertyAffordance {
        interaction: PartialInteractionAffordance {
            forms: vec![
                Form { href: CowStr::from("/properties/on"), op: None, subprotocol: None },
            ],
        },
        human_readable: human("OnOffProperty", "On/Off", "Whether the lamp is turned on"),
        data_schema: schema(DataSchemaSubtype::Boolean, CowStr::default(), false),
    }
}

fn brightness_property() -> (r: PropertyAffordance)
    ensures
        is_brightness_property(r),
{
    PropertyAffordance {
        interaction: PartialInteractionAffordance {
            forms: vec![
                form(
                    "/properties/brightness",
                    vec![Operation::ReadProperty, Operation::WriteProperty],
                ),
                event_form(
                    "/properties/brightness/observe",
                    vec![Operation::ObserveProperty, Operation::UnobserveProperty],
                ),
            ],
        },
        human_readable: human(
            "BrightnessProperty",
            "Brightness",
            "The level of light from 0-100",
        ),
        data_schema: integers(Some(0), Some(100), "percent", true),
    }
}

fn fade_input() -> (r: DataSchema)
    ensures
        is_fade_input(r),
{
    let brightness: DataSchema = DataSchema {
        data_schema: integers(Some(0), Some(100), "percent", false),
        human_readable: HumanReadable::default(),
    };
    let duration: DataSchema = DataSchema {
        data_schema: integers(Some(1), None, "milliseconds", false),
        human_readable: HumanReadable::default(),
    };
    let object: ObjectDataSchema = ObjectDataSchema {
        properties: NameMap {
            entries: vec![
                (CowStr::from("brightness"), brightness),
                (CowStr::from("duration"), duration),
            ],
        },
        required: vec![CowStr::from("brightness"), CowStr::from("duration")],
    };
    DataSchema {
        data_schema: schema(DataSchemaSubtype::Object(object), CowStr::default(), false),
        human_readable: HumanReadable::default(),
    }
}

fn fade_action() -> (r: ActionAffordance)
    ensures
        is_fade_action(r),
{
    ActionAffordance {
        interaction: InteractionAffordance {
            interaction: PartialInteractionAffordance {
                forms: vec![
                    form("/actions/fade", vec![Operation::InvokeAction]),
                    form(
                        "/actions/fade/{action_id}",
                        vec![Operation::QueryAction, Operation::CancelAction],
                    ),
                ],
            },
            human_readable: HumanReadable {
                attype: CowStr::default(),
                title: CowStr::from("Fade"),
                description: CowStr::from("Fade the lamp to a given level"),
            },
        },
        input: Some(fade_input()),
        output: None,
        synchronous: None,
    }
}

fn overheated_event() -> (r: EventAffordance)
    ensures
        is_overheated_event(r),
{
    EventAffordance {
        interaction: InteractionAffordance {
            interaction: PartialInteractionAffordance {
                forms: vec![
                    Form {
                        href: CowStr::from("/events/overheated"),
                        op: None,
                        subprotocol: Some(CowStr::from("sse")),
                    },
                ],
            },
            human_readable: HumanReadable {
                attype: CowStr::default(),
                title: CowStr::default(),
                description: CowStr::from("The lamp has exceeded its safe operating temperature"),
            },
        },
        data: Some(
            DataSchema {
                data_schema: schema(
                    DataSchemaSubtype::Number(NumberDataSchema::default()),
                    CowStr::from("degree celsius"),
                    false,
                ),
                human_readable: HumanReadable::default(),
            },
        ),
    }
}

fn lamp_forms() -> (r: Vec<Form>)
    ensures
        are_lamp_forms(r@),
{
    vec![
        form("/properties", vec![Operation::ReadAllProperties]),
        event_form(
            "/properties/observe",
            vec![Operation::ObserveAllProperties, Operation::UnobserveAllProperties],
        ),
        form("/actions", vec![Operation::QueryAllActions]),
        event_form(
            "/events",
            vec![Operation::SubscribeAllEvents, Operation::UnsubscribeAllEvents],
        ),
    ]
}

/// The description of the lamp.
pub fn description() -> (thing: ThingDescription)
    ensures
        is_lamp(thing),
{
    ThingDescription {
        id: CowStr::from("urn:dev:ops:my-lamp-1234"),
        title: CowStr::from("My Lamp"),
        security: CowStr::from("nosec_sc"),
        security_definitions: NameMap {
            entries: vec![
                (
                    CowStr::from("nosec_sc"),
                    SecuritySchemeDefinition { scheme: SecurityScheme::NoSecurityScheme },
                ),
            ],
        },
        attype: OneOrMany::from(vec![CowStr::from("OnOffSwitch"), CowStr::from("Light")]),
        description: CowStr::from("A web connected lamp"),
        properties: NameMap {
            entries: vec![
                (CowStr::from("on"), on_property()),
                (CowStr::from("brightness"), brightness_property()),
            ],
        },
        actions: NameMap { entries: vec![(CowStr::from("fade"), fade_action())] },
        events: NameMap { entries: vec![(CowStr::from("overheated"), overheated_event())] },
        forms: lamp_forms(),
    }
}

/// A description equals that of the lamp.
pub open spec fn equals_lamp(thing: ThingDescription) -> bool {
    exists|lamp: ThingDescription| #[trigger] is_lamp(lamp) && thing.same(lamp)
}

/// Whether a description equals that of the lamp.
pub fn is_lamp_description(thing: &ThingDescription) -> (r: bool)
    ensures
        r == equals_lamp(*thing),
{
    let lamp: ThingDescription = description();
    let r: bool = *thing == lamp;
    proof {
        assert(is_lamp(lamp));
        if equals_lamp(*thing) {
            let other = choose|other: ThingDescription| #[trigger]
                is_lamp(other) && thing.same(other);
            crate::lamp::laws::lamps_are_equal(other, lamp);
        }
    }
    r
}

} // verus!
