//! The test of a light emitter: an on-off switch whose brightness may be set and
//! faded.

use vstd::prelude::*;

use crate::number::Binary64;
use crate::td::{
    has_text, ActionAffordance, DataSchema, DataSchemaSubtype, Form, IntegerDataSchema,
    ObjectDataSchema, Operation, PropertyAffordance, ThingDescription,
};
use crate::tester::on_off_switch::{find_action, find_form, find_property};
use crate::text::same_text;

pub mod description_laws;
pub mod laws;
pub mod message;
pub mod run;
pub mod wording_laws;

pub use run::{
    plan_light, Brightness, BrightnessForm, BrightnessKind, LevelFade, LightAnswer, LightCall,
    LightError, LightNext, LightPlan, LightStage, LightTest,
};

verus! {

/// What the description of a light emitter gets wrong.
#[derive(Clone, Copy, Debug, PartialEq, Eq, Structural)]
pub enum LightDefect {
    /// The brightness has no form to read and write it.
    BrightnessForm,
    /// The brightness is no number from 0 to 100.
    BrightnessSubtype,
    /// The brightness is no percentage.
    BrightnessUnit,
    /// The brightness is read-only.
    BrightnessReadOnly,
    /// The brightness is write-only.
    BrightnessWriteOnly,
    /// The fade action has no form to invoke it.
    FadeForm,
    /// The fade action has no input.
    FadeInput,
    /// The fade action has an output.
    FadeOutput,
    /// The input of the fade action is no object.
    FadeObject,
    /// The fade action takes no level.
    Level,
    /// The level is no integer from 0 to 100.
    LevelSubtype,
    /// The level is no percentage.
    LevelUnit,
    /// The level is read-only.
    LevelReadOnly,
    /// The level is write-only.
    LevelWriteOnly,
    /// The fade action takes no duration.
    Duration,
    /// The duration is no integer from 0 on.
    DurationSubtype,
    /// The duration is not in seconds.
    DurationUnit,
    /// The duration is read-only.
    DurationReadOnly,
    /// The duration is write-only.
    DurationWriteOnly,
    /// The level may be left out.
    LevelRequired,
    /// The duration may be left out.
    DurationRequired,
}

/// An integer from 0 to 100.
pub open spec fn whole_percentage(subtype: DataSchemaSubtype) -> bool {
    subtype matches DataSchemaSubtype::Integer(schema) && schema == IntegerDataSchema {
        minimum: Some(0),
        maximum: Some(100),
    }
}

/// A number from 0 to 100.
pub open spec fn percentage(subtype: DataSchemaSubtype) -> bool {
    &&& subtype matches DataSchemaSubtype::Number(schema)
    &&& schema.minimum matches Some(minimum)
    &&& minimum.equals(Binary64::of_small(0))
    &&& schema.maximum matches Some(maximum)
    &&& maximum.equals(Binary64::of_small(100))
}

/// The form to read and write the brightness, and whether it is an integer, where
/// there is a brightness; or the first thing that its description gets wrong.
pub open spec fn brightness_form(thing: ThingDescription) -> Result<
    Option<(Form, bool)>,
    LightDefect,
> {
    match crate::tester::on_off_switch::property_of_type(
        thing.properties.entries@,
        "BrightnessProperty"@,
    ) {
        None => Ok(None),
        Some(property) => match crate::tester::on_off_switch::form_for(
            property.interaction.forms@,
            seq![Operation::ReadProperty, Operation::WriteProperty],
        ) {
            None => Err(LightDefect::BrightnessForm),
            Some(form) => if !whole_percentage(property.data_schema.subtype) && !percentage(
                property.data_schema.subtype,
            ) {
                Err(LightDefect::BrightnessSubtype)
            } else if property.data_schema.unit@ != "percent"@ {
                Err(LightDefect::BrightnessUnit)
            } else if property.data_schema.read_only == Some(true) {
                Err(LightDefect::BrightnessReadOnly)
            } else if property.data_schema.write_only == Some(true) {
                Err(LightDefect::BrightnessWriteOnly)
            } else {
                Ok(Some((form, whole_percentage(property.data_schema.subtype))))
            },
        },
    }
}

/// What the level of a fade action gets wrong first.
pub open spec fn level_defect(input: ObjectDataSchema) -> Option<LightDefect> {
    match crate::td::lookup(input.properties.entries@, "level"@) {
        None => Some(LightDefect::Level),
        Some(level) => if !whole_percentage(level.data_schema.subtype) {
            Some(LightDefect::LevelSubtype)
        } else if level.data_schema.unit@ != "percent"@ {
            Some(LightDefect::LevelUnit)
        } else if level.data_schema.read_only == Some(true) {
            Some(LightDefect::LevelReadOnly)
        } else if level.data_schema.write_only == Some(true) {
            Some(LightDefect::LevelWriteOnly)
        } else {
            None
        },
    }
}

/// What the duration of a fade action gets wrong first.
pub open spec fn duration_defect(input: ObjectDataSchema) -> Option<LightDefect> {
    match crate::td::lookup(input.properties.entries@, "duration"@) {
        None => Some(LightDefect::Duration),
        Some(duration) => if !(duration.data_schema.subtype matches DataSchemaSubtype::Integer(
            schema,
        ) && schema.minimum == Some(0i64)) {
            Some(LightDefect::DurationSubtype)
        } else if duration.data_schema.unit@ != "seconds"@ {
            Some(LightDefect::DurationUnit)
        } else if duration.data_schema.read_only == Some(true) {
            Some(LightDefect::DurationReadOnly)
        } else if duration.data_schema.write_only == Some(true) {
            Some(LightDefect::DurationWriteOnly)
        } else {
            None
        },
    }
}

/// What the input of a fade action gets wrong first.
pub open spec fn input_defect(input: ObjectDataSchema) -> Option<LightDefect> {
    match (level_defect(input), duration_defect(input)) {
        (Some(defect), _) => Some(defect),
        (None, Some(defect)) => Some(defect),
        (None, None) => if !crate::td::lists(input.required@, "level"@) {
            Some(LightDefect::LevelRequired)
        } else if !crate::td::lists(input.required@, "duration"@) {
            Some(LightDefect::DurationRequired)
        } else {
            None
        },
    }
}

/// The form to invoke the fade action, where there is one; or the first thing that
/// its description gets wrong.
pub open spec fn fade_form(thing: ThingDescription) -> Result<Option<Form>, LightDefect> {
    match crate::tester::on_off_switch::action_of_type(thing.actions.entries@, "FadeAction"@) {
        None => Ok(None),
        Some(action) => match crate::tester::on_off_switch::form_for(
            action.interaction.interaction.forms@,
            seq![Operation::InvokeAction],
        ) {
            None => Err(LightDefect::FadeForm),
            Some(form) => match action.input {
                None => Err(LightDefect::FadeInput),
                Some(input) => if action.output is Some {
                    Err(LightDefect::FadeOutput)
                } else {
                    match input.data_schema.subtype {
                        DataSchemaSubtype::Object(schema) => match input_defect(schema) {
                            Some(defect) => Err(defect),
                            None => Ok(Some(form)),
                        },
                        _ => Err(LightDefect::FadeObject),
                    }
                },
            },
        },
    }
}

fn is_whole_percentage(subtype: &DataSchemaSubtype) -> (r: bool)
    ensures
        r == whole_percentage(*subtype),
{
    match subtype {
        DataSchemaSubtype::Integer(schema) => {
            schema.minimum == Some(0) && schema.maximum == Some(100)
        },
        _ => false,
    }
}

fn is_percentage(subtype: &DataSchemaSubtype) -> (r: bool)
    ensures
        r == percentage(*subtype),
{
    match subtype {
        DataSchemaSubtype::Number(schema) => match (schema.minimum, schema.maximum) {
            (Some(minimum), Some(maximum)) => {
                minimum == Binary64::from(0u8) && maximum == Binary64::from(100u8)
            },
            _ => false,
        },
        _ => false,
    }
}

/// Finds the form to read and write the brightness, and whether it is an integer.
pub fn get_brightness_form(thing: &ThingDescription) -> (r: Result<
    Option<(&Form, bool)>,
    LightDefect,
>)
    ensures
        match r {
            Ok(Some((form, integers))) => brightness_form(*thing) == Ok::<
                Option<(Form, bool)>,
                LightDefect,
            >(Some((*form, integers))),
            Ok(None) => brightness_form(*thing) == Ok::<Option<(Form, bool)>, LightDefect>(None),
            Err(defect) => brightness_form(*thing) == Err::<Option<(Form, bool)>, LightDefect>(
                defect,
            ),
        },
{
    let property: &PropertyAffordance = match find_property(
        &thing.properties,
        "BrightnessProperty",
    ) {
        Some(property) => property,
        None => {
            return Ok(None);
        },
    };
    let operations: [Operation; 2] = [Operation::ReadProperty, Operation::WriteProperty];
    assert(operations@ =~= seq![Operation::ReadProperty, Operation::WriteProperty]);
    let form: &Form = match find_form(&property.interaction.forms, operations.as_slice()) {
        Some(form) => form,
        None => {
            return Err(LightDefect::BrightnessForm);
        },
    };
    let integers: bool = is_whole_percentage(&property.data_schema.subtype);
    if !integers && !is_percentage(&property.data_schema.subtype) {
        return Err(LightDefect::BrightnessSubtype);
    }
    if !same_text(property.data_schema.unit.as_str(), "percent") {
        return Err(LightDefect::BrightnessUnit);
    }
    if !matches!(property.data_schema.read_only, None | Some(false)) {
        return Err(LightDefect::BrightnessReadOnly);
    }
    if !matches!(property.data_schema.write_only, None | Some(false)) {
        return Err(LightDefect::BrightnessWriteOnly);
    }
    Ok(Some((form, integers)))
}

fn check_level(input: &ObjectDataSchema) -> (r: Result<(), LightDefect>)
    ensures
        match r {
            Ok(()) => level_defect(*input) is None,
            Err(defect) => level_defect(*input) == Some(defect),
        },
{
    let level: &DataSchema = match input.properties.get("level") {
        Some(level) => level,
        None => {
            return Err(LightDefect::Level);
        },
    };
    if !is_whole_percentage(&level.data_schema.subtype) {
        return Err(LightDefect::LevelSubtype);
    }
    if !same_text(level.data_schema.unit.as_str(), "percent") {
        return Err(LightDefect::LevelUnit);
    }
    if !matches!(level.data_schema.read_only, None | Some(false)) {
        return Err(LightDefect::LevelReadOnly);
    }
    if !matches!(level.data_schema.write_only, None | Some(false)) {
        return Err(LightDefect::LevelWriteOnly);
    }
    Ok(())
}

fn check_duration(input: &ObjectDataSchema) -> (r: Result<(), LightDefect>)
    ensures
        match r {
            Ok(()) => duration_defect(*input) is None,
            Err(defect) => duration_defect(*input) == Some(defect),
        },
{
    let duration: &DataSchema = match input.properties.get("duration") {
        Some(duration) => duration,
        None => {
            return Err(LightDefect::Duration);
        },
    };
    let from_zero: bool = match &duration.data_schema.subtype {
        DataSchemaSubtype::Integer(schema) => schema.minimum == Some(0),
        _ => false,
    };
    if !from_zero {
        return Err(LightDefect::DurationSubtype);
    }
    if !same_text(duration.data_schema.unit.as_str(), "seconds") {
        return Err(LightDefect::DurationUnit);
    }
    if !matches!(duration.data_schema.read_only, None | Some(false)) {
        return Err(LightDefect::DurationReadOnly);
    }
    if !matches!(duration.data_schema.write_only, None | Some(false)) {
        return Err(LightDefect::DurationWriteOnly);
    }
    Ok(())
}

/// Finds the form to invoke the fade action.
pub fn get_fade_form(thing: &ThingDescription) -> (r: Result<Option<&Form>, LightDefect>)
    ensures
        match r {
            Ok(Some(form)) => fade_form(*thing) == Ok::<Option<Form>, LightDefect>(Some(*form)),
            Ok(None) => fade_form(*thing) == Ok::<Option<Form>, LightDefect>(None),
            Err(defect) => fade_form(*thing) == Err::<Option<Form>, LightDefect>(defect),
        },
{
    let action: &ActionAffordance = match find_action(&thing.actions, "FadeAction") {
        Some(action) => action,
        None => {
            return Ok(None);
        },
    };
    let operations: [Operation; 1] = [Operation::InvokeAction];
    assert(operations@ =~= seq![Operation::InvokeAction]);
    let form: &Form = match find_form(
        &action.interaction.interaction.forms,
        operations.as_slice(),
    ) {
        Some(form) => form,
        None => {
            return Err(LightDefect::FadeForm);
        },
    };
    let input: &DataSchema = match &action.input {
        Some(input) => input,
        None => {
            return Err(LightDefect::FadeInput);
        },
    };
    if action.output.is_some() {
        return Err(LightDefect::FadeOutput);
    }
    let schema: &ObjectDataSchema = match &input.data_schema.subtype {
        DataSchemaSubtype::Object(schema) => schema,
        _ => {
            return Err(LightDefect::FadeObject);
        },
    };
    match check_level(schema) {
        Ok(()) => {},
        Err(defect) => {
            return Err(defect);
        },
    }
    match check_duration(schema) {
        Ok(()) => {},
        Err(defect) => {
            return Err(defect);
        },
    }
    if !has_text(&schema.required, "level") {
        return Err(LightDefect::LevelRequired);
    }
    if !has_text(&schema.required, "duration") {
        return Err(LightDefect::DurationRequired);
    }
    Ok(Some(form))
}

} // verus!
