//! What the description of a light emitter must say, field by field.

use vstd::prelude::*;

use crate::number::Binary64;
use crate::td::{
    CowStr, DataSchema, DataSchemaSubtype, Form, ObjectDataSchema, ThingDescription,
};
use crate::tester::light_emitter::{LightDefect, LightPlan};

verus! {

/// An integer whose least value is 0 and whose greatest is 100.
pub open spec fn integer_to_hundred(subtype: DataSchemaSubtype) -> bool {
    subtype matches DataSchemaSubtype::Integer(schema) && schema.minimum == Some(0i64)
        && schema.maximum == Some(100i64)
}

/// A number whose least value is a zero and whose greatest is 100, by their bits.
pub open spec fn number_to_hundred(subtype: DataSchemaSubtype) -> bool {
    subtype matches DataSchemaSubtype::Number(schema) && (schema.minimum matches Some(minimum) && (
    minimum.bits == 0 || minimum.bits == 0x8000_0000_0000_0000)) && (schema.maximum matches Some(
        maximum,
    ) && maximum.bits == 0x4059_0000_0000_0000)
}

/// A brightness may be missing, and is taken to be exactly when no property is a
/// `BrightnessProperty`.
pub proof fn brightness_may_be_missing(thing: ThingDescription)
    ensures
        crate::tester::light_emitter::brightness_form(thing) == Ok::<
            Option<(Form, bool)>,
            LightDefect,
        >(None) <==> crate::tester::on_off_switch::laws::no_property(thing, "BrightnessProperty"@),
{
    crate::tester::on_off_switch::laws::properties_are_found_by_type(thing, "BrightnessProperty"@);
}

/// The brightness is read and written at the first plain form of the first
/// `BrightnessProperty` that names no operation, or both to read and to write. That is so
/// exactly when the property is an integer or a number from 0 to 100 in percent and
/// neither read-only nor write-only, and an integer exactly when its type is; otherwise
/// the first of these that fails is told.
pub proof fn brightness_has_the_first_plain_form(thing: ThingDescription, i: int)
    requires
        crate::tester::on_off_switch::laws::first_property(thing, "BrightnessProperty"@, i),
    ensures
        ({
            let found = crate::tester::light_emitter::brightness_form(thing);
            let property = thing.properties.entries@[i].1;
            let forms = property.interaction.forms@;
            let kind = |form: Form| crate::tester::on_off_switch::laws::reads_and_writes(form);
            let whole = integer_to_hundred(property.data_schema.subtype);
            let ranged = whole || number_to_hundred(property.data_schema.subtype);
            let percent = property.data_schema.unit@ == "percent"@;
            let writable = property.data_schema.read_only != Some(true);
            let readable = property.data_schema.write_only != Some(true);
            &&& refused(found, LightDefect::BrightnessForm)
                <==> crate::tester::on_off_switch::laws::no_form(forms, kind)
            &&& found matches Ok(Some((form, integers))) ==> integers == whole && exists|k: int|
                #[trigger]
                crate::tester::on_off_switch::laws::first_form(forms, kind, k) && form == forms[k]
            &&& forall|k: int| #[trigger]
                crate::tester::on_off_switch::laws::first_form(forms, kind, k) ==> {
                    &&& found == Ok::<Option<(Form, bool)>, LightDefect>(Some((forms[k], whole)))
                        <==> ranged && percent && writable && readable
                    &&& refused(found, LightDefect::BrightnessSubtype) <==> !ranged
                    &&& refused(found, LightDefect::BrightnessUnit) <==> ranged && !percent
                    &&& refused(found, LightDefect::BrightnessReadOnly) <==> ranged && percent
                        && !writable
                    &&& refused(found, LightDefect::BrightnessWriteOnly) <==> ranged && percent
                        && writable && !readable
                }
        }),
{
    crate::tester::on_off_switch::laws::properties_are_found_by_type(thing, "BrightnessProperty"@);
    let property = thing.properties.entries@[i].1;
    let forms = property.interaction.forms@;
    let kind = |form: Form| crate::tester::on_off_switch::laws::reads_and_writes(form);
    crate::tester::on_off_switch::laws::lemma_reading_and_writing(forms);
    crate::tester::on_off_switch::laws::lemma_first_form(forms, kind);
    crate::number::hundred_and_zero_by_their_bits();
    if let DataSchemaSubtype::Number(schema) = property.data_schema.subtype {
        if let (Some(minimum), Some(maximum)) = (schema.minimum, schema.maximum) {
            crate::number::numbers_are_equal_by_their_bits(minimum, Binary64::of_small(0));
            crate::number::numbers_are_equal_by_their_bits(maximum, Binary64::of_small(100));
        }
    }
}

/// A description is refused for a defect.
pub open spec fn refused<T>(found: Result<T, LightDefect>, defect: LightDefect) -> bool {
    found == Err::<T, LightDefect>(defect)
}

/// No schema stands under a name.
pub open spec fn no_schema(entries: Seq<(CowStr, DataSchema)>, name: Seq<char>) -> bool {
    forall|j: int| 0 <= j < entries.len() ==> (#[trigger] entries[j]).0@ != name
}

/// The schema at a place is the first one under a name.
pub open spec fn first_schema(
    entries: Seq<(CowStr, DataSchema)>,
    name: Seq<char>,
    i: int,
) -> bool {
    &&& 0 <= i < entries.len()
    &&& entries[i].0@ == name
    &&& forall|j: int| 0 <= j < i ==> (#[trigger] entries[j]).0@ != name
}

/// A level: an integer from 0 to 100 in percent that is neither read-only nor
/// write-only.
pub open spec fn level_fits(level: DataSchema) -> bool {
    &&& integer_to_hundred(level.data_schema.subtype)
    &&& level.data_schema.unit@ == "percent"@
    &&& level.data_schema.read_only != Some(true)
    &&& level.data_schema.write_only != Some(true)
}

/// A duration: an integer from 0 on in seconds that is neither read-only nor
/// write-only.
pub open spec fn duration_fits(duration: DataSchema) -> bool {
    &&& duration.data_schema.subtype matches DataSchemaSubtype::Integer(schema) && schema.minimum
        == Some(0i64)
    &&& duration.data_schema.unit@ == "seconds"@
    &&& duration.data_schema.read_only != Some(true)
    &&& duration.data_schema.write_only != Some(true)
}

/// The first schema under `level` is that of a level.
pub open spec fn has_level(input: ObjectDataSchema) -> bool {
    exists|j: int| #[trigger]
        first_schema(input.properties.entries@, "level"@, j) && level_fits(
            input.properties.entries@[j].1,
        )
}

/// The first schema under `duration` is that of a duration.
pub open spec fn has_duration(input: ObjectDataSchema) -> bool {
    exists|j: int| #[trigger]
        first_schema(input.properties.entries@, "duration"@, j) && duration_fits(
            input.properties.entries@[j].1,
        )
}

/// A name is among those that may not be left out.
pub open spec fn is_required(input: ObjectDataSchema, name: Seq<char>) -> bool {
    exists|r: int| 0 <= r < input.required@.len() && (#[trigger] input.required@[r])@ == name
}

/// The first action of the type has an object as its input, no output and a plain form
/// to invoke it.
pub open spec fn fades_with(thing: ThingDescription, input: ObjectDataSchema, i: int) -> bool {
    let action = thing.actions.entries@[i].1;
    &&& crate::tester::on_off_switch::laws::first_action(thing, "FadeAction"@, i)
    &&& !crate::tester::on_off_switch::laws::no_form(
        action.interaction.interaction.forms@,
        |form: Form| crate::tester::on_off_switch::laws::invokes(form),
    )
    &&& action.output is None
    &&& action.input matches Some(schema) && schema.data_schema.subtype
        == DataSchemaSubtype::Object(input)
}

proof fn lemma_schema(entries: Seq<(CowStr, DataSchema)>, name: Seq<char>)
    ensures
        crate::td::lookup(entries, name) is None <==> no_schema(entries, name),
        forall|i: int| #[trigger]
            first_schema(entries, name, i) ==> crate::td::lookup(entries, name) == Some(
                entries[i].1,
            ),
        crate::td::lookup(entries, name) is Some ==> exists|i: int| #[trigger]
            first_schema(entries, name, i),
{
    if no_schema(entries, name) {
        crate::td::lemma_lookup_none(entries, name);
    }
    if crate::td::lookup(entries, name) is Some {
        let i = crate::td::lemma_lookup_some(entries, name);
        assert(first_schema(entries, name, i));
    } else if !no_schema(entries, name) {
        let j = choose|j: int| 0 <= j < entries.len() && (#[trigger] entries[j]).0@ == name;
        lemma_named(entries, name, j);
    }
    assert forall|i: int| #[trigger] first_schema(entries, name, i) implies crate::td::lookup(
        entries,
        name,
    ) == Some(entries[i].1) by {
        crate::td::lemma_lookup_first(entries, i);
    }
}

proof fn lemma_named(entries: Seq<(CowStr, DataSchema)>, name: Seq<char>, j: int)
    requires
        0 <= j < entries.len(),
        entries[j].0@ == name,
    ensures
        crate::td::lookup(entries, name) is Some,
    decreases entries.len(),
{
    if j > 0 {
        lemma_named(entries.drop_first(), name, j - 1);
    }
}

/// A fade action may be missing, and is taken to be exactly when no action is a
/// `FadeAction`.
pub proof fn fade_may_be_missing(thing: ThingDescription)
    ensures
        crate::tester::light_emitter::fade_form(thing) == Ok::<Option<Form>, LightDefect>(None)
            <==> crate::tester::on_off_switch::laws::no_action(thing, "FadeAction"@),
{
    crate::tester::on_off_switch::laws::actions_are_found_by_type(thing, "FadeAction"@);
}

/// A fade is started at the first plain form of the first `FadeAction` that names no
/// operation, or to invoke. That is refused for its form exactly when there is none, for
/// its input exactly when there is none, for its output exactly when there is one, and
/// for its object exactly when the input is of another type.
pub proof fn fade_has_the_first_plain_form(thing: ThingDescription, i: int)
    requires
        crate::tester::on_off_switch::laws::first_action(thing, "FadeAction"@, i),
    ensures
        ({
            let found = crate::tester::light_emitter::fade_form(thing);
            let action = thing.actions.entries@[i].1;
            let forms = action.interaction.interaction.forms@;
            let kind = |form: Form| crate::tester::on_off_switch::laws::invokes(form);
            let formless = crate::tester::on_off_switch::laws::no_form(forms, kind);
            &&& refused(found, LightDefect::FadeForm) <==> formless
            &&& found matches Ok(Some(form)) ==> exists|k: int| #[trigger]
                crate::tester::on_off_switch::laws::first_form(forms, kind, k) && form == forms[k]
            &&& refused(found, LightDefect::FadeInput) <==> !formless && action.input is None
            &&& refused(found, LightDefect::FadeOutput) <==> !formless && action.input is Some
                && action.output is Some
            &&& refused(found, LightDefect::FadeObject) <==> !formless && action.output is None && (
            action.input matches Some(schema) && !(schema.data_schema.subtype is Object))
            &&& found is Ok ==> exists|input: ObjectDataSchema| #[trigger]
                fades_with(thing, input, i) && has_level(input) && has_duration(input)
                    && is_required(input, "level"@) && is_required(input, "duration"@)
        }),
{
    crate::tester::on_off_switch::laws::actions_are_found_by_type(thing, "FadeAction"@);
    let action = thing.actions.entries@[i].1;
    let forms = action.interaction.interaction.forms@;
    let kind = |form: Form| crate::tester::on_off_switch::laws::invokes(form);
    crate::tester::on_off_switch::laws::lemma_invoking(forms);
    crate::tester::on_off_switch::laws::lemma_first_form(forms, kind);
    if crate::tester::light_emitter::fade_form(thing) is Ok {
        let input = action.input->0.data_schema.subtype->Object_0;
        assert(fades_with(thing, input, i));
        fade_is_accepted_exactly_when_its_input_fits(thing, input, i);
    }
}

/// A fade action with an object as its input is accepted exactly when the object has a
/// level from 0 to 100 in percent and a duration from 0 on in seconds, both of them
/// integers that are neither read-only nor write-only, and neither may be left out.
pub proof fn fade_is_accepted_exactly_when_its_input_fits(
    thing: ThingDescription,
    input: ObjectDataSchema,
    i: int,
)
    requires
        fades_with(thing, input, i),
    ensures
        ({
            let found = crate::tester::light_emitter::fade_form(thing);
            &&& (found matches Ok(Some(_))) <==> has_level(input) && has_duration(input)
                && is_required(input, "level"@) && is_required(input, "duration"@)
            &&& refused(found, LightDefect::LevelRequired) <==> has_level(input) && has_duration(
                input,
            ) && !is_required(input, "level"@)
            &&& refused(found, LightDefect::DurationRequired) <==> has_level(input)
                && has_duration(input) && is_required(input, "level"@) && !is_required(
                input,
                "duration"@,
            )
        }),
{
    crate::tester::on_off_switch::laws::actions_are_found_by_type(thing, "FadeAction"@);
    let forms = thing.actions.entries@[i].1.interaction.interaction.forms@;
    crate::tester::on_off_switch::laws::lemma_invoking(forms);
    lemma_schema(input.properties.entries@, "level"@);
    lemma_schema(input.properties.entries@, "duration"@);
}

/// The level of a fade action is refused for the first of these: that it is missing, no
/// integer from 0 to 100, not in percent, read-only or write-only.
pub proof fn level_defects_are_told(thing: ThingDescription, input: ObjectDataSchema, i: int)
    requires
        fades_with(thing, input, i),
    ensures
        ({
            let found = crate::tester::light_emitter::fade_form(thing);
            let entries = input.properties.entries@;
            &&& refused(found, LightDefect::Level) <==> no_schema(entries, "level"@)
            &&& forall|j: int| #[trigger]
                first_schema(entries, "level"@, j) ==> {
                    let schema = entries[j].1.data_schema;
                    let whole = integer_to_hundred(schema.subtype);
                    let percent = schema.unit@ == "percent"@;
                    &&& refused(found, LightDefect::LevelSubtype) <==> !whole
                    &&& refused(found, LightDefect::LevelUnit) <==> whole && !percent
                    &&& refused(found, LightDefect::LevelReadOnly) <==> whole && percent
                        && schema.read_only == Some(true)
                    &&& refused(found, LightDefect::LevelWriteOnly) <==> whole && percent
                        && schema.read_only != Some(true) && schema.write_only == Some(true)
                }
        }),
{
    crate::tester::on_off_switch::laws::actions_are_found_by_type(thing, "FadeAction"@);
    let forms = thing.actions.entries@[i].1.interaction.interaction.forms@;
    crate::tester::on_off_switch::laws::lemma_invoking(forms);
    lemma_schema(input.properties.entries@, "level"@);
    lemma_schema(input.properties.entries@, "duration"@);
}

/// Where its level fits, the duration of a fade action is refused for the first of these:
/// that it is missing, no integer from 0 on, not in seconds, read-only or write-only.
pub proof fn duration_defects_are_told(thing: ThingDescription, input: ObjectDataSchema, i: int)
    requires
        fades_with(thing, input, i),
        has_level(input),
    ensures
        ({
            let found = crate::tester::light_emitter::fade_form(thing);
            let entries = input.properties.entries@;
            &&& refused(found, LightDefect::Duration) <==> no_schema(entries, "duration"@)
            &&& forall|j: int| #[trigger]
                first_schema(entries, "duration"@, j) ==> {
                    let schema = entries[j].1.data_schema;
                    let whole = schema.subtype matches DataSchemaSubtype::Integer(bounds)
                        && bounds.minimum == Some(0i64);
                    let seconds = schema.unit@ == "seconds"@;
                    &&& refused(found, LightDefect::DurationSubtype) <==> !whole
                    &&& refused(found, LightDefect::DurationUnit) <==> whole && !seconds
                    &&& refused(found, LightDefect::DurationReadOnly) <==> whole && seconds
                        && schema.read_only == Some(true)
                    &&& refused(found, LightDefect::DurationWriteOnly) <==> whole && seconds
                        && schema.read_only != Some(true) && schema.write_only == Some(true)
                }
        }),
{
    crate::tester::on_off_switch::laws::actions_are_found_by_type(thing, "FadeAction"@);
    let forms = thing.actions.entries@[i].1.interaction.interaction.forms@;
    crate::tester::on_off_switch::laws::lemma_invoking(forms);
    lemma_schema(input.properties.entries@, "level"@);
    lemma_schema(input.properties.entries@, "duration"@);
}

/// What is planned is what the description offers: a brightness where there is one that
/// fits, and a fade where there is one.
pub proof fn light_plans_follow_the_description(thing: ThingDescription, plan: LightPlan)
    requires
        crate::tester::light_emitter::run::plan_of(thing, plan),
    ensures
        crate::tester::on_off_switch::plan_of(thing, plan.switch),
        (plan.brightness matches Ok(None)) <==> crate::tester::on_off_switch::laws::no_property(
            thing,
            "BrightnessProperty"@,
        ),
        plan.brightness matches Ok(Some(brightness)) ==> exists|i: int, k: int| #[trigger]
            crate::tester::on_off_switch::laws::first_property(thing, "BrightnessProperty"@, i)
                && #[trigger] crate::tester::on_off_switch::laws::first_to_read_and_write(
                thing.properties.entries@[i].1.interaction.forms@,
                k,
            ) && *brightness.form == thing.properties.entries@[i].1.interaction.forms@[k]
                && brightness.integers == (
            thing.properties.entries@[i].1.data_schema.subtype is Integer),
        (plan.fade matches Ok(None)) <==> crate::tester::on_off_switch::laws::no_action(
            thing,
            "FadeAction"@,
        ),
        plan.fade matches Ok(Some(fade)) ==> exists|i: int, k: int| #[trigger]
            crate::tester::on_off_switch::laws::first_action(thing, "FadeAction"@, i)
                && #[trigger] crate::tester::on_off_switch::laws::first_to_invoke(
                thing.actions.entries@[i].1.interaction.interaction.forms@,
                k,
            ) && *fade == thing.actions.entries@[i].1.interaction.interaction.forms@[k],
        plan.brightness matches Err(defect) ==> refused(
            crate::tester::light_emitter::brightness_form(thing),
            defect,
        ),
        plan.fade matches Err(defect) ==> refused(
            crate::tester::light_emitter::fade_form(thing),
            defect,
        ),
{
    brightness_may_be_missing(thing);
    fade_may_be_missing(thing);
    crate::tester::on_off_switch::laws::lemma_first_property(thing, "BrightnessProperty"@);
    crate::tester::on_off_switch::laws::lemma_first_action(thing, "FadeAction"@);
    if let Ok(Some(brightness)) = plan.brightness {
        let i = choose|i: int| #[trigger]
            crate::tester::on_off_switch::laws::first_property(thing, "BrightnessProperty"@, i);
        brightness_has_the_first_plain_form(thing, i);
        let forms = thing.properties.entries@[i].1.interaction.forms@;
        let kind = |form: Form| crate::tester::on_off_switch::laws::reads_and_writes(form);
        let k = choose|k: int| #[trigger]
            crate::tester::on_off_switch::laws::first_form(forms, kind, k) && *brightness.form
                == forms[k];
        assert(crate::tester::on_off_switch::laws::first_to_read_and_write(forms, k));
    }
    if let Ok(Some(fade)) = plan.fade {
        let i = choose|i: int| #[trigger]
            crate::tester::on_off_switch::laws::first_action(thing, "FadeAction"@, i);
        fade_has_the_first_plain_form(thing, i);
        let forms = thing.actions.entries@[i].1.interaction.interaction.forms@;
        let kind = |form: Form| crate::tester::on_off_switch::laws::invokes(form);
        let k = choose|k: int| #[trigger]
            crate::tester::on_off_switch::laws::first_form(forms, kind, k) && *fade == forms[k];
        assert(crate::tester::on_off_switch::laws::first_to_invoke(forms, k));
    }
}

} // verus!
