//! The texts of what goes wrong in the test of a light emitter.

use vstd::prelude::*;
use vstd::string::*;

use crate::tester::light_emitter::{LevelFade, LightDefect, LightError};
use crate::tester::request::shown_error;
use crate::text::{decimal_text, join};
use crate::trusted::show_status;

verus! {

impl LightDefect {
    /// The text of the defect.
    pub open spec fn described(self) -> Seq<char> {
        match self {
            LightDefect::BrightnessForm =>
                "Brightness property of an on-off switch must have a ReadProperty+WriteProperty form operation"@,
            LightDefect::BrightnessSubtype =>
                "Brightness property of an on-off switch must have a valid data schema integer/number subtype"@,
            LightDefect::BrightnessUnit =>
                "Brightness property of an on-off switch must have the unit field set to \"percent\" in data schema"@,
            LightDefect::BrightnessReadOnly =>
                "Brightness property of an on-off switch must have a null, undefined or false \"read_only\" field in data schema"@,
            LightDefect::BrightnessWriteOnly =>
                "Brightness property of an on-off switch must have a null, undefined or false \"write_only\" field in data schema"@,
            LightDefect::FadeForm =>
                "On-off switch fade action must have an invokable form"@,
            LightDefect::FadeInput =>
                "On-off switch fade action must have an input field"@,
            LightDefect::FadeOutput =>
                "On-off switch fade action output must be null or undefined"@,
            LightDefect::FadeObject =>
                "On-off switch fade action input must have an object type of data schema"@,
            LightDefect::Level =>
                "On-off switch fade action must have a level property in the input data schema"@,
            LightDefect::LevelSubtype =>
                "On-off switch fade action level input data schema property has an invalid data schema subtype"@,
            LightDefect::LevelUnit =>
                "On-off switch fade action level input data schema property must have the unit field set to \"percent\" in data schema"@,
            LightDefect::LevelReadOnly =>
                "On-off switch fade action level input data schema property must have a null, undefined or false \"read_only\" field in data schema"@,
            LightDefect::LevelWriteOnly =>
                "On-off switch fade action level input data schema property must have a null, undefined or false \"write_only\" field in data schema"@,
            LightDefect::Duration =>
                "On-off switch fade action must have a duration property in the input data schema"@,
            LightDefect::DurationSubtype =>
                "On-off switch fade action duration input data schema property has an invalid data schema subtype"@,
            LightDefect::DurationUnit =>
                "On-off switch fade action duration input data schema property must have the unit field set to \"percent\" in data schema"@,
            LightDefect::DurationReadOnly =>
                "On-off switch fade action duration input data schema property must have a null, undefined or false \"read_only\" field in data schema"@,
            LightDefect::DurationWriteOnly =>
                "On-off switch fade action duration input data schema property must have a null, undefined or false \"write_only\" field in data schema"@,
            LightDefect::LevelRequired =>
                "On-off switch fade action input data schema must have \"level\" in its \"required\" field"@,
            LightDefect::DurationRequired =>
                "On-off switch fade action input data schema must have \"duration\" in its \"required\" field"@,
        }
    }

    /// The text of the defect.
    pub fn text(self) -> (r: &'static str)
        ensures
            r@ == self.described(),
    {
        match self {
            LightDefect::BrightnessForm => {
                "Brightness property of an on-off switch must have a ReadProperty+WriteProperty form operation"
            },
            LightDefect::BrightnessSubtype => {
                "Brightness property of an on-off switch must have a valid data schema integer/number subtype"
            },
            LightDefect::BrightnessUnit => {
                "Brightness property of an on-off switch must have the unit field set to \"percent\" in data schema"
            },
            LightDefect::BrightnessReadOnly => {
                "Brightness property of an on-off switch must have a null, undefined or false \"read_only\" field in data schema"
            },
            LightDefect::BrightnessWriteOnly => {
                "Brightness property of an on-off switch must have a null, undefined or false \"write_only\" field in data schema"
            },
            LightDefect::FadeForm => {
                "On-off switch fade action must have an invokable form"
            },
            LightDefect::FadeInput => {
                "On-off switch fade action must have an input field"
            },
            LightDefect::FadeOutput => {
                "On-off switch fade action output must be null or undefined"
            },
            LightDefect::FadeObject => {
                "On-off switch fade action input must have an object type of data schema"
            },
            LightDefect::Level => {
                "On-off switch fade action must have a level property in the input data schema"
            },
            LightDefect::LevelSubtype => {
                "On-off switch fade action level input data schema property has an invalid data schema subtype"
            },
            LightDefect::LevelUnit => {
                "On-off switch fade action level input data schema property must have the unit field set to \"percent\" in data schema"
            },
            LightDefect::LevelReadOnly => {
                "On-off switch fade action level input data schema property must have a null, undefined or false \"read_only\" field in data schema"
            },
            LightDefect::LevelWriteOnly => {
                "On-off switch fade action level input data schema property must have a null, undefined or false \"write_only\" field in data schema"
            },
            LightDefect::Duration => {
                "On-off switch fade action must have a duration property in the input data schema"
            },
            LightDefect::DurationSubtype => {
                "On-off switch fade action duration input data schema property has an invalid data schema subtype"
            },
            LightDefect::DurationUnit => {
                "On-off switch fade action duration input data schema property must have the unit field set to \"percent\" in data schema"
            },
            LightDefect::DurationReadOnly => {
                "On-off switch fade action duration input data schema property must have a null, undefined or false \"read_only\" field in data schema"
            },
            LightDefect::DurationWriteOnly => {
                "On-off switch fade action duration input data schema property must have a null, undefined or false \"write_only\" field in data schema"
            },
            LightDefect::LevelRequired => {
                "On-off switch fade action input data schema must have \"level\" in its \"required\" field"
            },
            LightDefect::DurationRequired => {
                "On-off switch fade action input data schema must have \"duration\" in its \"required\" field"
            },
        }
    }
}

/// A fade as it is shown.
pub open spec fn shown_fade(fade: LevelFade) -> Seq<char> {
    "Fade { duration: "@ + crate::text::decimal(fade.duration as nat) + ", level: "@
        + crate::text::decimal(fade.level as nat) + " }"@
}

/// A fade that may be missing, as it is shown.
pub open spec fn shown_opt_fade(fade: Option<LevelFade>) -> Seq<char> {
    match fade {
        Some(fade) => "Some("@ + shown_fade(fade) + ")"@,
        None => "None"@,
    }
}

fn show_fade(fade: &LevelFade) -> (r: String)
    ensures
        r@ == shown_fade(*fade),
{
    let mut r: String = join("Fade { duration: ", decimal_text(fade.duration as u64).as_str());
    r.append(", level: ");
    r.append(decimal_text(fade.level as u64).as_str());
    r.append(" }");
    r
}

fn show_opt_fade(fade: &Option<LevelFade>) -> (r: String)
    ensures
        r@ == shown_opt_fade(*fade),
{
    match fade {
        Some(fade) => join(join("Some(", show_fade(fade).as_str()).as_str(), ")"),
        None => "None".to_owned(),
    }
}

impl LightError {
    /// A status in the error is one.
    pub open spec fn wf(self) -> bool {
        match self {
            LightError::Switch(error) => error.wf(),
            LightError::OkStatus(status) => 100 <= status <= 999,
            LightError::NoContentStatus(status) => 100 <= status <= 999,
            LightError::CreatedStatus(status) => 100 <= status <= 999,
            _ => true,
        }
    }

    /// Whether a status in the error is one.
    pub fn is_wf(&self) -> (r: bool)
        ensures
            r == self.wf(),
    {
        match self {
            LightError::OkStatus(status) => 100 <= *status && *status <= 999,
            LightError::NoContentStatus(status) => 100 <= *status && *status <= 999,
            LightError::CreatedStatus(status) => 100 <= *status && *status <= 999,
            LightError::Switch(error) => error.is_wf(),
            _ => true,
        }
    }

    /// The transport error whose text is part of that of this error, if there is one.
    pub open spec fn transport(self) -> Option<reqwest::Error> {
        match self {
            LightError::Reqwest(error) => Some(error),
            LightError::Switch(error) => error.transport(),
            LightError::Write(error) => error.transport(),
            _ => None,
        }
    }

    /// The transport error whose text is part of that of this error, if there is one.
    pub fn transport_error(&self) -> (r: Option<&reqwest::Error>)
        ensures
            match r {
                Some(error) => self.transport() == Some(*error),
                None => self.transport() is None,
            },
    {
        match self {
            LightError::Reqwest(error) => Some(error),
            LightError::Switch(error) => error.transport_error(),
            LightError::Write(error) => error.transport_error(),
            _ => None,
        }
    }

    /// The text of the error, given those of a transport error and of the brightness
    /// values that it holds.
    pub open spec fn described(
        self,
        reqwest: Seq<char>,
        expected: Seq<char>,
        found: Seq<char>,
    ) -> Seq<char> {
        match self {
            LightError::Switch(error) => error.described(reqwest),
            LightError::Defect(defect) => defect.described(),
            LightError::OkStatus(status) => "Expected OK status code, got "@
                + crate::trusted::status_phrase(status),
            LightError::NoContentStatus(status) => "Expected NO_CONTENT status code, got "@
                + crate::trusted::status_phrase(status),
            LightError::CreatedStatus(status) => "Expected CREATED status code, got "@
                + crate::trusted::status_phrase(status),
            LightError::Reqwest(_) => reqwest,
            LightError::Write(error) => error.described(reqwest),
            LightError::OutOfRange(_) =>
                "On-off switch is expected to have a brightness level between 0 and 100, found "@
                    + found,
            LightError::NotSet { .. } =>
                "On-off switch is expected to have the brightness level just set ("@ + expected
                    + "), found "@ + found + "."@,
            LightError::FadeFailed => "Lamp fade action unexpectedly returned an error"@,
            LightError::FadeStatus(status) =>
                "Invalid on-off switch fade action response. Expected status \"running\" or \"pending\", received "@
                    + status.name(),
            LightError::FadeOutput { asked, told } =>
                "Invalid on-off switch fade action response. Expected output "@ + shown_fade(
                asked,
            ) + ", got "@ + shown_opt_fade(told),
            LightError::NotFaded { level, .. } =>
                "On-off switch is expected to have the brightness level expected at the end of a fade ("@
                    + crate::text::decimal(level as nat) + "), found "@ + found + "."@,
        }
    }

    /// The text of the error, given those of a transport error and of the brightness
    /// values that it holds.
    pub fn describe(&self, reqwest: &str, expected: &str, found: &str) -> (r: String)
        requires
            self.wf(),
        ensures
            r@ == self.described(reqwest@, expected@, found@),
    {
        match self {
            LightError::Switch(error) => error.describe(reqwest),
            LightError::Defect(defect) => defect.text().to_owned(),
            LightError::OkStatus(status) => join(
                "Expected OK status code, got ",
                show_status(*status).as_str(),
            ),
            LightError::NoContentStatus(status) => join(
                "Expected NO_CONTENT status code, got ",
                show_status(*status).as_str(),
            ),
            LightError::CreatedStatus(status) => join(
                "Expected CREATED status code, got ",
                show_status(*status).as_str(),
            ),
            LightError::Reqwest(_) => reqwest.to_owned(),
            LightError::Write(error) => error.describe(reqwest),
            LightError::OutOfRange(_) => join(
                "On-off switch is expected to have a brightness level between 0 and 100, found ",
                found,
            ),
            LightError::NotSet { .. } => {
                let mut r: String = join(
                    "On-off switch is expected to have the brightness level just set (",
                    expected,
                );
                r.append("), found ");
                r.append(found);
                r.append(".");
                r
            },
            LightError::FadeFailed => "Lamp fade action unexpectedly returned an error".to_owned(),
            LightError::FadeStatus(status) => join(
                "Invalid on-off switch fade action response. Expected status \"running\" or \"pending\", received ",
                status.show(),
            ),
            LightError::FadeOutput { asked, told } => {
                let mut r: String = join(
                    "Invalid on-off switch fade action response. Expected output ",
                    show_fade(asked).as_str(),
                );
                r.append(", got ");
                r.append(show_opt_fade(told).as_str());
                r
            },
            LightError::NotFaded { level, .. } => {
                let mut r: String = join(
                    "On-off switch is expected to have the brightness level expected at the end of a fade (",
                    decimal_text(*level as u64).as_str(),
                );
                r.append("), found ");
                r.append(found);
                r.append(".");
                r
            },
        }
    }

    /// The text of the error, given those of the brightness values that it holds.
    pub fn text(&self, expected: &str, found: &str) -> (r: String)
        requires
            self.wf(),
        ensures
            exists|reqwest: Seq<char>|
                crate::tester::request::shows_error(self.transport(), reqwest)
                    && r@ == #[trigger] self.described(reqwest, expected@, found@),
    {
        self.describe(shown_error(self.transport_error()).as_str(), expected, found)
    }
}

} // verus!
