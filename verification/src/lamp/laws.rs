//! What holds of the description of the lamp.

use vstd::prelude::*;

use crate::td::{
    ActionAffordance, CowStr, DataSchema, DataSchemaSubtype, EventAffordance, Form, HumanReadable,
    ObjectDataSchema, Operation, PropertyAffordance, SecuritySchemeDefinition, ThingDescription,
};

verus! {

/// The names in the description of the lamp differ where they have to.
proof fn lemma_names_differ()
    ensures
        "on"@ != "brightness"@,
        "brightness"@ != "duration"@,
{
    reveal_strlit("on");
    reveal_strlit("brightness");
    reveal_strlit("duration");
    assert("brightness"@[0] != "duration"@[0]);
}

proof fn lemma_fade_inputs(a: ObjectDataSchema, b: ObjectDataSchema)
    requires
        a.properties.entries@.len() == 2,
        b.properties.entries@.len() == 2,
        a.properties.entries@[0].0@ == "brightness"@,
        b.properties.entries@[0].0@ == "brightness"@,
        a.properties.entries@[1].0@ == "duration"@,
        b.properties.entries@[1].0@ == "duration"@,
        a.properties.entries@[0].1.equivalent(b.properties.entries@[0].1),
        a.properties.entries@[1].1.equivalent(b.properties.entries@[1].1),
        a.required@.len() == 2,
        b.required@.len() == 2,
        a.required@[0]@ == b.required@[0]@,
        a.required@[1]@ == b.required@[1]@,
    ensures
        a.properties.wf(),
        a.equivalent(b),
{
    lemma_names_differ();
    crate::td::lemma_lookup_first(b.properties.entries@, 0);
    crate::td::lemma_lookup_first(b.properties.entries@, 1);
    assert forall|text: Seq<char>| #[trigger]
        crate::td::lists(a.required@, text) <==> crate::td::lists(b.required@, text) by {
        if crate::td::lists(a.required@, text) {
            let i = choose|i: int| 0 <= i < a.required@.len() && #[trigger] a.required@[i]@ == text;
            assert(b.required@[i]@ == text);
        }
        if crate::td::lists(b.required@, text) {
            let i = choose|i: int| 0 <= i < b.required@.len() && #[trigger] b.required@[i]@ == text;
            assert(a.required@[i]@ == text);
        }
    }
}

proof fn lemma_fade_actions(a: ActionAffordance, b: ActionAffordance)
    requires
        crate::lamp::is_fade_action(a),
        crate::lamp::is_fade_action(b),
    ensures
        a.wf(),
        a.same(b),
{
    match (a.input->0.data_schema.subtype, b.input->0.data_schema.subtype) {
        (DataSchemaSubtype::Object(x), DataSchemaSubtype::Object(y)) => {
            assert(x.properties.entries@[0].1.equivalent(y.properties.entries@[0].1));
            assert(x.properties.entries@[1].1.equivalent(y.properties.entries@[1].1));
            lemma_fade_inputs(x, y);
            assert(x.wf());
        },
        _ => {},
    }
}

/// The description of the lamp is well-formed, and any two of them are equal, also
/// when they are compared with others.
pub proof fn lamps_are_equal(a: ThingDescription, b: ThingDescription)
    requires
        crate::lamp::is_lamp(a),
        crate::lamp::is_lamp(b),
    ensures
        a.wf(),
        a.same(b),
        forall|other: ThingDescription| #[trigger] other.same(a) ==> other.same(b),
{
    lemma_names_differ();
    crate::td::lemma_lookup_first(b.security_definitions.entries@, 0);
    crate::td::lemma_lookup_first(b.properties.entries@, 0);
    crate::td::lemma_lookup_first(b.properties.entries@, 1);
    crate::td::lemma_lookup_first(b.actions.entries@, 0);
    crate::td::lemma_lookup_first(b.events.entries@, 0);
    lemma_fade_actions(a.actions.entries@[0].1, b.actions.entries@[0].1);
    assert(a.properties.entries@[0].1.same(b.properties.entries@[0].1));
    assert(a.properties.entries@[1].1.same(b.properties.entries@[1].1));
    assert(a.events.entries@[0].1.same(b.events.entries@[0].1));
    let schemes = |x: SecuritySchemeDefinition, y: SecuritySchemeDefinition| x.scheme == y.scheme;
    let properties = |x: PropertyAffordance, y: PropertyAffordance| x.same(y);
    let actions = |x: ActionAffordance, y: ActionAffordance| x.same(y);
    let events = |x: EventAffordance, y: EventAffordance| x.same(y);
    assert(crate::td::same_maps(a.security_definitions, b.security_definitions, schemes));
    assert(crate::td::same_maps(a.properties, b.properties, properties));
    assert(crate::td::same_maps(a.actions, b.actions, actions));
    assert(crate::td::same_maps(a.events, b.events, events));
    assert(crate::td::same_forms(a.forms@, b.forms@));
    assert(a.same(b));
    assert(crate::td::laws::has_forms_of(a, b));
    assert forall|other: ThingDescription| #[trigger] other.same(a) implies other.same(b) by {
        crate::td::laws::description_equality_is_transitive(other, a, b);
    }
}

/// The lamp is also described as an on-off switch without a toggle action and as a
/// light emitter with an integer brightness and without a fade action of its kind.
pub proof fn lamp_is_a_light_emitter(thing: ThingDescription)
    requires
        crate::lamp::is_lamp(thing),
    ensures
        crate::tester::on_off_switch::on_off_form(thing) matches Ok(form) && form.href@
            == "/properties/on"@,
        crate::tester::on_off_switch::toggle_form(thing) == Ok::<
            Option<Form>,
            crate::tester::on_off_switch::SwitchDefect,
        >(None),
        crate::tester::light_emitter::brightness_form(thing) matches Ok(Some((form, integers)))
            && form.href@ == "/properties/brightness"@ && integers,
        crate::tester::light_emitter::fade_form(thing) == Ok::<
            Option<Form>,
            crate::tester::light_emitter::LightDefect,
        >(None),
{
    reveal_strlit("OnOffProperty");
    reveal_strlit("BrightnessProperty");
    reveal_strlit("ToggleAction");
    reveal_strlit("FadeAction");
    assert("OnOffProperty"@[0] != "BrightnessProperty"@[0]);
    reveal_with_fuel(crate::tester::on_off_switch::property_of_type, 3);
    reveal_with_fuel(crate::tester::on_off_switch::action_of_type, 3);
    reveal_with_fuel(crate::tester::on_off_switch::form_for, 3);
    assert(thing.attype.0@[0]@ == "OnOffSwitch"@);
    let properties = thing.properties.entries@;
    assert(properties.drop_first()[0] == properties[1]);
    let brightness = properties[1].1.interaction.forms@[0];
    let operations = seq![Operation::ReadProperty, Operation::WriteProperty];
    assert(crate::tester::on_off_switch::serves(brightness, operations)) by {
        assert((brightness.op->0).0@[0] == Operation::ReadProperty);
        assert((brightness.op->0).0@[1] == Operation::WriteProperty);
    }
}

/// The texts of the human readable fields.
pub open spec fn reads(
    human: HumanReadable,
    attype: Seq<char>,
    title: Seq<char>,
    description: Seq<char>,
) -> bool {
    human.attype@ == attype && human.title@ == title && human.description@ == description
}

/// The form at a place, if there is one, has a reference, and names these operations or, where
/// they are the default ones, none.
pub open spec fn goes_to(
    forms: Seq<Form>,
    i: int,
    href: Seq<char>,
    operations: Seq<Operation>,
    default_op: Seq<Operation>,
) -> bool {
    i < forms.len() ==> {
        &&& forms[i].href@ == href
        &&& forms[i].op is Some ==> (forms[i].op->0).0@ == operations
        &&& forms[i].op is None ==> default_op == operations
    }
}

/// A form has a reference, operations and a subprotocol, if any.
pub open spec fn goes_exactly_to(
    form: Form,
    href: Seq<char>,
    operations: Seq<Operation>,
    subprotocol: Option<Seq<char>>,
) -> bool {
    &&& form.href@ == href
    &&& form.op matches Some(op) && op.0@ == operations
    &&& form.subprotocol is Some <==> subprotocol is Some
    &&& form.subprotocol is Some ==> form.subprotocol->0@ == subprotocol->0
}

/// The property whether the lamp is on: a truth value that is read and written.
pub open spec fn tells_on(property: PropertyAffordance) -> bool {
    let both = seq![Operation::ReadProperty, Operation::WriteProperty];
    &&& property.data_schema.subtype is Boolean
    &&& property.data_schema.unit@.len() == 0
    &&& property.data_schema.read_only != Some(true)
    &&& property.data_schema.write_only != Some(true)
    &&& reads(
        property.human_readable,
        "OnOffProperty"@,
        "On/Off"@,
        "Whether the lamp is turned on"@,
    )
    &&& goes_to(property.interaction.forms@, 0, "/properties/on"@, both, both)
}

/// The brightness: an integer from 0 to 100 in percent that is read, written and observed.
pub open spec fn tells_brightness(property: PropertyAffordance) -> bool {
    let both = seq![Operation::ReadProperty, Operation::WriteProperty];
    &&& property.data_schema.subtype matches DataSchemaSubtype::Integer(schema) && schema.minimum
        == Some(0i64) && schema.maximum == Some(100i64)
    &&& property.data_schema.unit@ == "percent"@
    &&& property.data_schema.read_only != Some(true)
    &&& property.data_schema.write_only != Some(true)
    &&& reads(
        property.human_readable,
        "BrightnessProperty"@,
        "Brightness"@,
        "The level of light from 0-100"@,
    )
    &&& goes_to(property.interaction.forms@, 0, "/properties/brightness"@, both, both)
    &&& goes_to(
        property.interaction.forms@,
        1,
        "/properties/brightness/observe"@,
        seq![Operation::ObserveProperty, Operation::UnobserveProperty],
        both,
    )
}

/// The fade: an action with a brightness in percent and a duration in milliseconds, both of
/// them required, that is invoked, queried and cancelled.
pub open spec fn fades(action: ActionAffordance) -> bool {
    let invoke = seq![Operation::InvokeAction];
    let forms = action.interaction.interaction.forms@;
    &&& reads(
        action.interaction.human_readable,
        Seq::empty(),
        "Fade"@,
        "Fade the lamp to a given level"@,
    )
    &&& action.output is None
    &&& action.synchronous is None
    &&& goes_to(forms, 0, "/actions/fade"@, invoke, invoke)
    &&& goes_to(
        forms,
        1,
        "/actions/fade/{action_id}"@,
        seq![Operation::QueryAction, Operation::CancelAction],
        invoke,
    )
    &&& action.input matches Some(input) && input.data_schema.unit@.len() == 0 && (
    input.data_schema.subtype matches DataSchemaSubtype::Object(object)
        && object.properties.entries@.len() == 2 && (forall|k: int|
        0 <= k < 2 ==> is_fade_field(#[trigger] object.properties.entries@[k])) && (
    forall|text: Seq<char>| #[trigger]
        crate::td::lists(object.required@, text) <==> text == "brightness"@ || text
            == "duration"@))
}

/// A field of the input of the fade: a brightness from 0 to 100 in percent, or a duration
/// from 1 on in milliseconds.
pub open spec fn is_fade_field(entry: (CowStr, DataSchema)) -> bool {
    ||| entry.0@ == "brightness"@ && entry.1.data_schema.unit@ == "percent"@ && (
    entry.1.data_schema.subtype matches DataSchemaSubtype::Integer(schema) && schema.minimum
        == Some(0i64) && schema.maximum == Some(100i64))
    ||| entry.0@ == "duration"@ && entry.1.data_schema.unit@ == "milliseconds"@ && (
    entry.1.data_schema.subtype matches DataSchemaSubtype::Integer(schema) && schema.minimum
        == Some(1i64) && schema.maximum is None)
}

/// The event of an overheated lamp: a number in degrees Celsius without bounds that is
/// subscribed to.
pub open spec fn overheats(event: EventAffordance) -> bool {
    let both = seq![Operation::SubscribeEvent, Operation::UnsubscribeEvent];
    &&& reads(
        event.interaction.human_readable,
        Seq::empty(),
        Seq::empty(),
        "The lamp has exceeded its safe operating temperature"@,
    )
    &&& event.data matches Some(data) && data.data_schema.unit@ == "degree celsius"@ && (
    data.data_schema.subtype matches DataSchemaSubtype::Number(schema) && schema.minimum is None
        && schema.maximum is None)
    &&& goes_to(event.interaction.interaction.forms@, 0, "/events/overheated"@, both, both)
}

/// A description that equals that of the lamp says this of it, in whatever order.
pub proof fn lamp_is_recognised_by_its_fields(thing: ThingDescription)
    requires
        crate::lamp::equals_lamp(thing),
    ensures
        thing.id@ == "urn:dev:ops:my-lamp-1234"@,
        thing.title@ == "My Lamp"@,
        thing.description@ == "A web connected lamp"@,
        thing.security@ == "nosec_sc"@,
        thing.security_definitions.entries@.len() == 1,
        thing.security_definitions.entries@[0].0@ == "nosec_sc"@,
        thing.attype.0@.len() == 2,
        thing.attype.0@[0]@ == "OnOffSwitch"@,
        thing.attype.0@[1]@ == "Light"@,
        thing.properties.entries@.len() == 2,
        forall|k: int|
            0 <= k < 2 ==> ({
                let entry = #[trigger] thing.properties.entries@[k];
                entry.0@ == "on"@ && tells_on(entry.1) || entry.0@ == "brightness"@
                    && tells_brightness(entry.1)
            }),
        thing.actions.entries@.len() == 1,
        thing.actions.entries@[0].0@ == "fade"@,
        fades(thing.actions.entries@[0].1),
        thing.events.entries@.len() == 1,
        thing.events.entries@[0].0@ == "overheated"@,
        overheats(thing.events.entries@[0].1),
        thing.forms@.len() == 4,
        goes_exactly_to(thing.forms@[0], "/properties"@, seq![Operation::ReadAllProperties], None),
        goes_exactly_to(
            thing.forms@[1],
            "/properties/observe"@,
            seq![Operation::ObserveAllProperties, Operation::UnobserveAllProperties],
            Some("sse"@),
        ),
        goes_exactly_to(thing.forms@[2], "/actions"@, seq![Operation::QueryAllActions], None),
        goes_exactly_to(
            thing.forms@[3],
            "/events"@,
            seq![Operation::SubscribeAllEvents, Operation::UnsubscribeAllEvents],
            Some("sse"@),
        ),
{
    let lamp = choose|lamp: ThingDescription| #[trigger]
        crate::lamp::is_lamp(lamp) && thing.same(lamp);
    assert(crate::lamp::is_lamp(lamp) && thing.same(lamp));
    lemma_names_differ();
    let j = crate::td::lemma_lookup_some(
        lamp.security_definitions.entries@,
        thing.security_definitions.entries@[0].0@,
    );
    assert(thing.attype.0@[0]@ == lamp.attype.0@[0]@);
    assert(thing.attype.0@[1]@ == lamp.attype.0@[1]@);
    assert forall|k: int| 0 <= k < 2 implies ({
        let entry = #[trigger] thing.properties.entries@[k];
        entry.0@ == "on"@ && tells_on(entry.1) || entry.0@ == "brightness"@ && tells_brightness(
            entry.1,
        )
    }) by {
        let entry = thing.properties.entries@[k];
        let j = crate::td::lemma_lookup_some(lamp.properties.entries@, entry.0@);
        let found = lamp.properties.entries@[j].1;
        assert(entry.1.same(found));
        let forms = entry.1.interaction.forms@;
        let others = found.interaction.forms@;
        if forms.len() > 0 {
            assert(forms[0].equivalent(
                others[0],
                entry.1.default_operations(),
                found.default_operations(),
            ));
        }
        if forms.len() > 1 && j == 1 {
            assert(forms[1].equivalent(
                others[1],
                entry.1.default_operations(),
                found.default_operations(),
            ));
        }
    }
    lemma_fade(thing, lamp);
    lemma_overheated(thing, lamp);
    assert(thing.forms@[0].same(lamp.forms@[0]));
    assert(thing.forms@[1].same(lamp.forms@[1]));
    assert(thing.forms@[2].same(lamp.forms@[2]));
    assert(thing.forms@[3].same(lamp.forms@[3]));
}

proof fn lemma_fade(thing: ThingDescription, lamp: ThingDescription)
    requires
        crate::lamp::is_lamp(lamp),
        thing.same(lamp),
    ensures
        thing.actions.entries@[0].0@ == "fade"@,
        fades(thing.actions.entries@[0].1),
{
    let entry = thing.actions.entries@[0];
    let j = crate::td::lemma_lookup_some(lamp.actions.entries@, entry.0@);
    let found = lamp.actions.entries@[0].1;
    assert(entry.1.same(found));
    let forms = entry.1.interaction.interaction.forms@;
    let others = found.interaction.interaction.forms@;
    let invoke = seq![Operation::InvokeAction];
    if forms.len() > 0 {
        assert(forms[0].equivalent(others[0], invoke, invoke));
    }
    if forms.len() > 1 {
        assert(forms[1].equivalent(others[1], invoke, invoke));
    }
    let input = entry.1.input->0;
    let other = found.input->0;
    assert(input.equivalent(other));
    reveal_with_fuel(DataSchemaSubtype::equivalent, 2);
    match (input.data_schema.subtype, other.data_schema.subtype) {
        (DataSchemaSubtype::Object(x), DataSchemaSubtype::Object(y)) => {
            assert(x.equivalent(y));
            assert forall|k: int| 0 <= k < 2 implies is_fade_field(
                #[trigger] x.properties.entries@[k],
            ) by {
                let field = x.properties.entries@[k];
                let i = crate::td::lemma_lookup_some(y.properties.entries@, field.0@);
                assert(field.1.equivalent(y.properties.entries@[i].1));
                crate::td::field_laws::schemas_are_compared_field_by_field(
                    field.1,
                    y.properties.entries@[i].1,
                );
            }
            assert forall|text: Seq<char>| #[trigger]
                crate::td::lists(x.required@, text) <==> text == "brightness"@ || text
                    == "duration"@ by {
                assert(crate::td::lists(x.required@, text) <==> crate::td::lists(
                    y.required@,
                    text,
                ));
                if text == "brightness"@ {
                    assert(y.required@[0]@ == text);
                }
                if text == "duration"@ {
                    assert(y.required@[1]@ == text);
                }
            }
        },
        _ => {},
    }
}

proof fn lemma_overheated(thing: ThingDescription, lamp: ThingDescription)
    requires
        crate::lamp::is_lamp(lamp),
        thing.same(lamp),
    ensures
        thing.events.entries@[0].0@ == "overheated"@,
        overheats(thing.events.entries@[0].1),
{
    let entry = thing.events.entries@[0];
    let j = crate::td::lemma_lookup_some(lamp.events.entries@, entry.0@);
    let found = lamp.events.entries@[0].1;
    assert(entry.1.same(found));
    let both = seq![Operation::SubscribeEvent, Operation::UnsubscribeEvent];
    let forms = entry.1.interaction.interaction.forms@;
    if forms.len() > 0 {
        assert(forms[0].equivalent(found.interaction.interaction.forms@[0], both, both));
    }
    assert(entry.1.data->0.equivalent(found.data->0));
}

/// What the description of the lamp says beyond what a comparison looks at: the order of its
/// properties, that its brightness is observed and its state is not, which of its forms are
/// served by server-sent events, and that nothing is only read or only written.
pub proof fn lamp_is_described_in_full(thing: ThingDescription)
    requires
        crate::lamp::is_lamp(thing),
    ensures
        ({
            let on = thing.properties.entries@[0].1;
            let brightness = thing.properties.entries@[1].1;
            let fade = thing.actions.entries@[0].1;
            let overheated = thing.events.entries@[0].1;
            &&& thing.properties.entries@[0].0@ == "on"@
            &&& thing.properties.entries@[1].0@ == "brightness"@
            &&& !on.data_schema.observable
            &&& brightness.data_schema.observable
            &&& on.data_schema.read_only is None && on.data_schema.write_only is None
            &&& brightness.data_schema.read_only is None && brightness.data_schema.write_only
                is None
            &&& on.interaction.forms@.len() == 1
            &&& on.interaction.forms@[0].op is None
            &&& on.interaction.forms@[0].subprotocol is None
            &&& brightness.interaction.forms@.len() == 2
            &&& brightness.interaction.forms@[0].subprotocol is None
            &&& brightness.interaction.forms@[1].subprotocol matches Some(text) && text@ == "sse"@
            &&& fade.interaction.interaction.forms@.len() == 2
            &&& fade.interaction.interaction.forms@[0].subprotocol is None
            &&& fade.interaction.interaction.forms@[1].subprotocol is None
            &&& overheated.interaction.interaction.forms@.len() == 1
            &&& overheated.interaction.interaction.forms@[0].op is None
            &&& overheated.interaction.interaction.forms@[0].subprotocol matches Some(text) && text@
                == "sse"@
            &&& overheated.data matches Some(data) && data.data_schema.read_only is None
                && data.data_schema.write_only is None && !data.data_schema.observable
            &&& fade.input matches Some(input) && input.data_schema.read_only is None
                && input.data_schema.write_only is None && !input.data_schema.observable && (
            input.data_schema.subtype matches DataSchemaSubtype::Object(object)
                && object.properties.entries@[0].0@ == "brightness"@
                && object.properties.entries@[1].0@ == "duration"@
                && object.required@[0]@ == "brightness"@ && object.required@[1]@ == "duration"@
                && forall|k: int|
                0 <= k < 2 ==> ({
                    let schema = (#[trigger] object.properties.entries@[k]).1.data_schema;
                    schema.read_only is None && schema.write_only is None && !schema.observable
                }))
        }),
        crate::lamp::equals_lamp(thing),
{
    lamps_are_equal(thing, thing);
}

} // verus!
