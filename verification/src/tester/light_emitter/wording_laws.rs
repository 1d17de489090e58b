//! How the defects of a light emitter are worded.

use vstd::prelude::*;

use crate::tester::light_emitter::{LevelFade, LightDefect, LightError};

verus! {

/// A flag that is set and must not be is named in the same way for the brightness, the level
/// and the duration.
pub proof fn set_flags_are_named()
    ensures
        LightDefect::BrightnessReadOnly.described() == "Brightness property of an on-off switch"@
            + " must have a null, undefined or false \"read_only\" field in data schema"@,
        LightDefect::BrightnessWriteOnly.described() == "Brightness property of an on-off switch"@
            + " must have a null, undefined or false \"write_only\" field in data schema"@,
        LightDefect::LevelReadOnly.described() == "On-off switch fade action level input data schema property"@
            + " must have a null, undefined or false \"read_only\" field in data schema"@,
        LightDefect::LevelWriteOnly.described() == "On-off switch fade action level input data schema property"@
            + " must have a null, undefined or false \"write_only\" field in data schema"@,
        LightDefect::DurationReadOnly.described() == "On-off switch fade action duration input data schema property"@
            + " must have a null, undefined or false \"read_only\" field in data schema"@,
        LightDefect::DurationWriteOnly.described() == "On-off switch fade action duration input data schema property"@
            + " must have a null, undefined or false \"write_only\" field in data schema"@,
{
    assert(LightDefect::BrightnessReadOnly.described() == "Brightness property of an on-off switch"@
        + " must have a null, undefined or false \"read_only\" field in data schema"@) by {
        reveal_strlit("Brightness property of an on-off switch must have a null, undefined or false \"read_only\" field in data schema");
        reveal_strlit("Brightness property of an on-off switch");
        reveal_strlit(" must have a null, undefined or false \"read_only\" field in data schema");
    }
    assert(LightDefect::BrightnessWriteOnly.described() == "Brightness property of an on-off switch"@
        + " must have a null, undefined or false \"write_only\" field in data schema"@) by {
        reveal_strlit("Brightness property of an on-off switch must have a null, undefined or false \"write_only\" field in data schema");
        reveal_strlit("Brightness property of an on-off switch");
        reveal_strlit(" must have a null, undefined or false \"write_only\" field in data schema");
    }
    assert(LightDefect::LevelReadOnly.described() == "On-off switch fade action level input data schema property"@
        + " must have a null, undefined or false \"read_only\" field in data schema"@) by {
        reveal_strlit("On-off switch fade action level input data schema property must have a null, undefined or false \"read_only\" field in data schema");
        reveal_strlit("On-off switch fade action level input data schema property");
        reveal_strlit(" must have a null, undefined or false \"read_only\" field in data schema");
    }
    assert(LightDefect::LevelWriteOnly.described() == "On-off switch fade action level input data schema property"@
        + " must have a null, undefined or false \"write_only\" field in data schema"@) by {
        reveal_strlit("On-off switch fade action level input data schema property must have a null, undefined or false \"write_only\" field in data schema");
        reveal_strlit("On-off switch fade action level input data schema property");
        reveal_strlit(" must have a null, undefined or false \"write_only\" field in data schema");
    }
    assert(LightDefect::DurationReadOnly.described() == "On-off switch fade action duration input data schema property"@
        + " must have a null, undefined or false \"read_only\" field in data schema"@) by {
        reveal_strlit("On-off switch fade action duration input data schema property must have a null, undefined or false \"read_only\" field in data schema");
        reveal_strlit("On-off switch fade action duration input data schema property");
        reveal_strlit(" must have a null, undefined or false \"read_only\" field in data schema");
    }
    assert(LightDefect::DurationWriteOnly.described() == "On-off switch fade action duration input data schema property"@
        + " must have a null, undefined or false \"write_only\" field in data schema"@) by {
        reveal_strlit("On-off switch fade action duration input data schema property must have a null, undefined or false \"write_only\" field in data schema");
        reveal_strlit("On-off switch fade action duration input data schema property");
        reveal_strlit(" must have a null, undefined or false \"write_only\" field in data schema");
    }
}

/// The unit, the type and the form that the brightness, the level and the duration should have
/// are named after them.
pub proof fn wrong_schemas_are_named()
    ensures
        LightDefect::BrightnessUnit.described() == "Brightness property of an on-off switch"@
            + " must have the unit field set to \"percent\" in data schema"@,
        LightDefect::LevelUnit.described() == "On-off switch fade action level input data schema property"@
            + " must have the unit field set to \"percent\" in data schema"@,
        LightDefect::DurationUnit.described() == "On-off switch fade action duration input data schema property"@
            + " must have the unit field set to \"percent\" in data schema"@,
        LightDefect::BrightnessSubtype.described() == "Brightness property of an on-off switch"@
            + " must have a valid data schema integer/number subtype"@,
        LightDefect::BrightnessForm.described() == "Brightness property of an on-off switch"@
            + " must have a ReadProperty+WriteProperty form operation"@,
        LightDefect::LevelSubtype.described() == "On-off switch fade action level input data schema property"@
            + " has an invalid data schema subtype"@,
        LightDefect::DurationSubtype.described() == "On-off switch fade action duration input data schema property"@
            + " has an invalid data schema subtype"@,
{
    assert(LightDefect::BrightnessUnit.described() == "Brightness property of an on-off switch"@
        + " must have the unit field set to \"percent\" in data schema"@) by {
        reveal_strlit("Brightness property of an on-off switch must have the unit field set to \"percent\" in data schema");
        reveal_strlit("Brightness property of an on-off switch");
        reveal_strlit(" must have the unit field set to \"percent\" in data schema");
    }
    assert(LightDefect::LevelUnit.described() == "On-off switch fade action level input data schema property"@
        + " must have the unit field set to \"percent\" in data schema"@) by {
        reveal_strlit("On-off switch fade action level input data schema property must have the unit field set to \"percent\" in data schema");
        reveal_strlit("On-off switch fade action level input data schema property");
        reveal_strlit(" must have the unit field set to \"percent\" in data schema");
    }
    assert(LightDefect::DurationUnit.described() == "On-off switch fade action duration input data schema property"@
        + " must have the unit field set to \"percent\" in data schema"@) by {
        reveal_strlit("On-off switch fade action duration input data schema property must have the unit field set to \"percent\" in data schema");
        reveal_strlit("On-off switch fade action duration input data schema property");
        reveal_strlit(" must have the unit field set to \"percent\" in data schema");
    }
    assert(LightDefect::BrightnessSubtype.described() == "Brightness property of an on-off switch"@
        + " must have a valid data schema integer/number subtype"@) by {
        reveal_strlit("Brightness property of an on-off switch must have a valid data schema integer/number subtype");
        reveal_strlit("Brightness property of an on-off switch");
        reveal_strlit(" must have a valid data schema integer/number subtype");
    }
    assert(LightDefect::BrightnessForm.described() == "Brightness property of an on-off switch"@
        + " must have a ReadProperty+WriteProperty form operation"@) by {
        reveal_strlit("Brightness property of an on-off switch must have a ReadProperty+WriteProperty form operation");
        reveal_strlit("Brightness property of an on-off switch");
        reveal_strlit(" must have a ReadProperty+WriteProperty form operation");
    }
    assert(LightDefect::LevelSubtype.described() == "On-off switch fade action level input data schema property"@
        + " has an invalid data schema subtype"@) by {
        reveal_strlit("On-off switch fade action level input data schema property has an invalid data schema subtype");
        reveal_strlit("On-off switch fade action level input data schema property");
        reveal_strlit(" has an invalid data schema subtype");
    }
    assert(LightDefect::DurationSubtype.described() == "On-off switch fade action duration input data schema property"@
        + " has an invalid data schema subtype"@) by {
        reveal_strlit("On-off switch fade action duration input data schema property has an invalid data schema subtype");
        reveal_strlit("On-off switch fade action duration input data schema property");
        reveal_strlit(" has an invalid data schema subtype");
    }
}

/// What the fade action lacks is named after it, and a field by its name.
pub proof fn wrong_fades_are_named()
    ensures
        LightDefect::FadeForm.described() == "On-off switch fade action"@
            + " must have an invokable form"@,
        LightDefect::FadeInput.described() == "On-off switch fade action"@
            + " must have an input field"@,
        LightDefect::FadeOutput.described() == "On-off switch fade action"@
            + " output must be null or undefined"@,
        LightDefect::FadeObject.described() == "On-off switch fade action"@
            + " input must have an object type of data schema"@,
        LightDefect::Level.described() == "On-off switch fade action"@ + " must have a "@ + "level"@
            + " property in the input data schema"@,
        LightDefect::Duration.described() == "On-off switch fade action"@ + " must have a "@
            + "duration"@ + " property in the input data schema"@,
        LightDefect::LevelRequired.described() == "On-off switch fade action"@
            + " input data schema must have \""@ + "level"@ + "\" in its \"required\" field"@,
        LightDefect::DurationRequired.described() == "On-off switch fade action"@
            + " input data schema must have \""@ + "duration"@ + "\" in its \"required\" field"@,
{
    assert(LightDefect::FadeForm.described() == "On-off switch fade action"@
        + " must have an invokable form"@) by {
        reveal_strlit("On-off switch fade action must have an invokable form");
        reveal_strlit("On-off switch fade action");
        reveal_strlit(" must have an invokable form");
    }
    assert(LightDefect::FadeInput.described() == "On-off switch fade action"@
        + " must have an input field"@) by {
        reveal_strlit("On-off switch fade action must have an input field");
        reveal_strlit("On-off switch fade action");
        reveal_strlit(" must have an input field");
    }
    assert(LightDefect::FadeOutput.described() == "On-off switch fade action"@
        + " output must be null or undefined"@) by {
        reveal_strlit("On-off switch fade action output must be null or undefined");
        reveal_strlit("On-off switch fade action");
        reveal_strlit(" output must be null or undefined");
    }
    assert(LightDefect::FadeObject.described() == "On-off switch fade action"@
        + " input must have an object type of data schema"@) by {
        reveal_strlit("On-off switch fade action input must have an object type of data schema");
        reveal_strlit("On-off switch fade action");
        reveal_strlit(" input must have an object type of data schema");
    }
    assert(LightDefect::Level.described() == "On-off switch fade action"@ + " must have a "@
        + "level"@ + " property in the input data schema"@) by {
        reveal_strlit("On-off switch fade action must have a level property in the input data schema");
        reveal_strlit("On-off switch fade action");
        reveal_strlit(" must have a ");
        reveal_strlit("level");
        reveal_strlit(" property in the input data schema");
    }
    assert(LightDefect::Duration.described() == "On-off switch fade action"@ + " must have a "@
        + "duration"@ + " property in the input data schema"@) by {
        reveal_strlit("On-off switch fade action must have a duration property in the input data schema");
        reveal_strlit("On-off switch fade action");
        reveal_strlit(" must have a ");
        reveal_strlit("duration");
        reveal_strlit(" property in the input data schema");
    }
    assert(LightDefect::LevelRequired.described() == "On-off switch fade action"@
        + " input data schema must have \""@ + "level"@ + "\" in its \"required\" field"@) by {
        reveal_strlit("On-off switch fade action input data schema must have \"level\" in its \"required\" field");
        reveal_strlit("On-off switch fade action");
        reveal_strlit(" input data schema must have \"");
        reveal_strlit("level");
        reveal_strlit("\" in its \"required\" field");
    }
    assert(LightDefect::DurationRequired.described() == "On-off switch fade action"@
        + " input data schema must have \""@ + "duration"@ + "\" in its \"required\" field"@) by {
        reveal_strlit("On-off switch fade action input data schema must have \"duration\" in its \"required\" field");
        reveal_strlit("On-off switch fade action");
        reveal_strlit(" input data schema must have \"");
        reveal_strlit("duration");
        reveal_strlit("\" in its \"required\" field");
    }
}

/// What an error holds is shown: the status that came with the one that was due, the
/// brightness with the one that was expected, the fade with the one that was asked for, and
/// what is only passed on as it is.
pub proof fn light_errors_show_what_they_hold(
    error: LightError,
    reqwest: Seq<char>,
    expected: Seq<char>,
    found: Seq<char>,
)
    ensures
        match error {
            LightError::Switch(switch) => error.described(reqwest, expected, found)
                == switch.described(reqwest),
            LightError::Defect(defect) => error.described(reqwest, expected, found)
                == defect.described(),
            LightError::OkStatus(status) => error.described(reqwest, expected, found)
                == "Expected OK status code, got "@ + crate::trusted::status_phrase(status),
            LightError::NoContentStatus(status) => error.described(reqwest, expected, found)
                == "Expected NO_CONTENT status code, got "@ + crate::trusted::status_phrase(status),
            LightError::CreatedStatus(status) => error.described(reqwest, expected, found)
                == "Expected CREATED status code, got "@ + crate::trusted::status_phrase(status),
            LightError::Reqwest(_) => error.described(reqwest, expected, found) == reqwest,
            LightError::Write(write) => error.described(reqwest, expected, found)
                == write.described(reqwest),
            LightError::OutOfRange(_) => error.described(reqwest, expected, found)
                == "On-off switch is expected to have a brightness level between 0 and 100, found "@
                + found,
            LightError::NotSet { .. } => error.described(reqwest, expected, found)
                == "On-off switch is expected to have the brightness level just set ("@ + expected
                + "), found "@ + found + "."@,
            LightError::FadeStatus(status) => error.described(reqwest, expected, found)
                == "Invalid on-off switch fade action response. Expected status \"running\" or \"pending\", received "@
                + status.name(),
            LightError::FadeOutput { asked, told } => error.described(reqwest, expected, found)
                == "Invalid on-off switch fade action response. Expected output "@ + fade_text(
                asked,
            ) + ", got "@ + (if told is Some {
                "Some("@ + fade_text(told->0) + ")"@
            } else {
                "None"@
            }),
            LightError::NotFaded { level, .. } => error.described(reqwest, expected, found)
                == "On-off switch is expected to have the brightness level expected at the end of a fade ("@
                + crate::text::decimal(level as nat) + "), found "@ + found + "."@,
            LightError::FadeFailed => true,
        },
{
}

/// The text of a fade.
pub open spec fn fade_text(fade: LevelFade) -> Seq<char> {
    "Fade { duration: "@ + crate::text::decimal(fade.duration as nat) + ", level: "@
        + crate::text::decimal(fade.level as nat) + " }"@
}

} // verus!
