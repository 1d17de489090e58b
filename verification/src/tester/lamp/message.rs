//! The texts of what goes wrong in the test of a lamp.

use vstd::prelude::*;
use vstd::string::*;

use crate::tester::lamp::active::{FadeAction, LampError, Props, INITIAL_BRIGHTNESS};
use crate::tester::lamp::watch::{
    interpolate_brightness_at_t, WatchError, CHECK_MILLIS, CHECK_TOLERANCE_MILLIS, FADE_END,
    FADE_MILLIS,
};
use crate::tester::lamp::{PolledActionError, TransitionError};
use crate::tester::request::shown_error;
use crate::text::{decimal_text, join, signed_decimal_text};
use crate::trusted::show_status;

verus! {

impl TransitionError {
    /// The text of the error, given that of the status before it.
    pub open spec fn described(self, before: Seq<char>) -> Seq<char> {
        match self {
            TransitionError::ToPending => "invalid transition from "@ + before + " to Pending"@,
            TransitionError::ToRunning => "invalid transition from "@ + before + " to Running"@,
            TransitionError::PendingTimeChanged =>
                "invalid Pending non-transition with a changing request time"@,
            TransitionError::PendingToRunningTimeChanged =>
                "invalid transition from Pending to Running with a changing request time"@,
            TransitionError::RunningTimeChanged =>
                "invalid Running non-transition with a changing request time"@,
            TransitionError::ToCompletedTimeChanged =>
                "invalid transition from Pending/Running to Completed with a changing request time"@,
            TransitionError::CompletedChanged =>
                "invalid Completed non-transition with changing fields"@,
            TransitionError::FailedToCompleted =>
                "invalid transition from Failed to Completed"@,
            TransitionError::ToFailedTimeChanged =>
                "invalid transition from Pending/Running to Failed with a changing request time"@,
            TransitionError::FailedChanged =>
                "invalid Failed non-transition with changing fields"@,
            TransitionError::CompletedToFailed =>
                "invalid transition from Completed to Failed"@,
        }
    }

    /// The text of the error, given that of the status before it.
    pub fn text(self, before: &str) -> (r: String)
        ensures
            r@ == self.described(before@),
    {
        match self {
            TransitionError::ToPending => join(
                join("invalid transition from ", before).as_str(),
                " to Pending",
            ),
            TransitionError::ToRunning => join(
                join("invalid transition from ", before).as_str(),
                " to Running",
            ),
            TransitionError::PendingTimeChanged => {
                "invalid Pending non-transition with a changing request time".to_owned()
            },
            TransitionError::PendingToRunningTimeChanged => {
                "invalid transition from Pending to Running with a changing request time".to_owned()
            },
            TransitionError::RunningTimeChanged => {
                "invalid Running non-transition with a changing request time".to_owned()
            },
            TransitionError::ToCompletedTimeChanged => {
                "invalid transition from Pending/Running to Completed with a changing request time".to_owned()
            },
            TransitionError::CompletedChanged => {
                "invalid Completed non-transition with changing fields".to_owned()
            },
            TransitionError::FailedToCompleted => {
                "invalid transition from Failed to Completed".to_owned()
            },
            TransitionError::ToFailedTimeChanged => {
                "invalid transition from Pending/Running to Failed with a changing request time".to_owned()
            },
            TransitionError::FailedChanged => {
                "invalid Failed non-transition with changing fields".to_owned()
            },
            TransitionError::CompletedToFailed => {
                "invalid transition from Completed to Failed".to_owned()
            },
        }
    }
}

impl PolledActionError {
    /// A status in the error is one.
    pub open spec fn wf(self) -> bool {
        self matches PolledActionError::Status(status) ==> 100 <= status <= 999
    }

    /// Whether a status in the error is one.
    pub fn is_wf(&self) -> (r: bool)
        ensures
            r == self.wf(),
    {
        match self {
            PolledActionError::Status(status) => 100 <= *status && *status <= 999,
            _ => true,
        }
    }

    /// The text of the error, given that of the status before it.
    pub open spec fn described(self, before: Seq<char>) -> Seq<char> {
        match self {
            PolledActionError::Polling(_) => "error while polling fade action"@,
            PolledActionError::Status(status) => "lamp fade action poller got the status code "@
                + crate::trusted::status_phrase(status) + " instead of OK"@,
            PolledActionError::Transition(error) => error.described(before),
            PolledActionError::Finished =>
                "lamp fade action poller finished unexpectedly"@,
            PolledActionError::PendingEnded =>
                "lamp fade action in a pending state cannot have a time_ended field"@,
            PolledActionError::PendingError =>
                "lamp fade action in a pending state cannot have an error field"@,
            PolledActionError::PendingOutput =>
                "lamp fade action in a pending state cannot have an output field"@,
            PolledActionError::RunningEnded =>
                "lamp fade action in a running state cannot have a time_ended field"@,
            PolledActionError::RunningError =>
                "lamp fade action in a running state cannot have an error field"@,
            PolledActionError::RunningOutput =>
                "lamp fade action in a running state cannot have an output field"@,
            PolledActionError::CompletedError =>
                "lamp fade action in a completed state cannot have an error field"@,
            PolledActionError::FailedOutput =>
                "lamp fade action in a running state cannot have an output field"@,
        }
    }

    /// The text of the error, given that of the status before it.
    pub fn text(&self, before: &str) -> (r: String)
        requires
            self.wf(),
        ensures
            r@ == self.described(before@),
    {
        match self {
            PolledActionError::Polling(_) => "error while polling fade action".to_owned(),
            PolledActionError::Status(status) => join(
                join(
                    "lamp fade action poller got the status code ",
                    show_status(*status).as_str(),
                ).as_str(),
                " instead of OK",
            ),
            PolledActionError::Transition(error) => error.text(before),
            PolledActionError::Finished => {
                "lamp fade action poller finished unexpectedly".to_owned()
            },
            PolledActionError::PendingEnded => {
                "lamp fade action in a pending state cannot have a time_ended field".to_owned()
            },
            PolledActionError::PendingError => {
                "lamp fade action in a pending state cannot have an error field".to_owned()
            },
            PolledActionError::PendingOutput => {
                "lamp fade action in a pending state cannot have an output field".to_owned()
            },
            PolledActionError::RunningEnded => {
                "lamp fade action in a running state cannot have a time_ended field".to_owned()
            },
            PolledActionError::RunningError => {
                "lamp fade action in a running state cannot have an error field".to_owned()
            },
            PolledActionError::RunningOutput => {
                "lamp fade action in a running state cannot have an output field".to_owned()
            },
            PolledActionError::CompletedError => {
                "lamp fade action in a completed state cannot have an error field".to_owned()
            },
            PolledActionError::FailedOutput => {
                "lamp fade action in a running state cannot have an output field".to_owned()
            },
        }
    }
}

impl WatchError {
    /// A status in the error is one.
    pub open spec fn wf(self) -> bool {
        match self {
            WatchError::Poll(_, error) => error.wf(),
            WatchError::OkStatus(status) => 100 <= status <= 999,
            _ => true,
        }
    }

    /// Whether a status in the error is one.
    pub fn is_wf(&self) -> (r: bool)
        ensures
            r == self.wf(),
    {
        match self {
            WatchError::OkStatus(status) => 100 <= *status && *status <= 999,
            WatchError::Poll(_, error) => error.is_wf(),
            _ => true,
        }
    }

    /// The transport error whose text is part of that of this error, if there is one.
    pub open spec fn transport(self) -> Option<reqwest::Error> {
        match self {
            WatchError::Reqwest(error) => Some(error),
            _ => None,
        }
    }

    /// The transport error whose text is part of that of this error, if there is one.
    pub fn transport_error(&self) -> (r: Option<&reqwest::Error>)
        ensures
            match r {
                Some(error) => self.transport() == Some(*error),
                None => self.transport() is None,
            },
    {
        match self {
            WatchError::Reqwest(error) => Some(error),
            _ => None,
        }
    }

    /// The text of the error, given those of a transport error and of what was known of
    /// the action.
    pub open spec fn described(self, reqwest: Seq<char>, before: Seq<char>) -> Seq<char> {
        match self {
            WatchError::Poll(_, error) => error.described(before),
            WatchError::NotFinished => "lamp fade action not finished before timeout"@,
            WatchError::OkStatus(status) => "Expected OK status code, got "@
                + crate::trusted::status_phrase(status),
            WatchError::Reqwest(_) => reqwest,
            WatchError::Brightness(found) =>
                "Invalid lamp brightness after 1s of fade. Expected between "@
                    + crate::text::signed_decimal(
                crate::tester::lamp::watch::brightness_at(CHECK_MILLIS - CHECK_TOLERANCE_MILLIS),
            ) + " and "@ + crate::text::signed_decimal(
                crate::tester::lamp::watch::brightness_at(CHECK_MILLIS + CHECK_TOLERANCE_MILLIS),
            ) + ", got "@ + crate::text::signed_decimal(found as int),
            WatchError::OverheatedEvent => "invalid lamp overheated event"@,
            WatchError::BrightnessEvent => "invalid lamp brightness status event"@,
            WatchError::HandlerClosed => "lamp event handler closed prematurely"@,
        }
    }

    /// The text of the error, given those of a transport error and of what was known of
    /// the action.
    pub fn describe(&self, reqwest: &str, before: &str) -> (r: String)
        requires
            self.wf(),
        ensures
            r@ == self.described(reqwest@, before@),
    {
        match self {
            WatchError::Poll(_, error) => error.text(before),
            WatchError::NotFinished => "lamp fade action not finished before timeout".to_owned(),
            WatchError::OkStatus(status) => join(
                "Expected OK status code, got ",
                show_status(*status).as_str(),
            ),
            WatchError::Reqwest(_) => reqwest.to_owned(),
            WatchError::Brightness(found) => {
                let lowest: i64 = interpolate_brightness_at_t(
                    CHECK_MILLIS as i64 - CHECK_TOLERANCE_MILLIS,
                );
                let highest: i64 = interpolate_brightness_at_t(
                    CHECK_MILLIS as i64 + CHECK_TOLERANCE_MILLIS,
                );
                let mut r: String = join(
                    "Invalid lamp brightness after 1s of fade. Expected between ",
                    signed_decimal_text(lowest).as_str(),
                );
                r.append(" and ");
                r.append(signed_decimal_text(highest).as_str());
                r.append(", got ");
                r.append(signed_decimal_text(*found).as_str());
                r
            },
            WatchError::OverheatedEvent => "invalid lamp overheated event".to_owned(),
            WatchError::BrightnessEvent => "invalid lamp brightness status event".to_owned(),
            WatchError::HandlerClosed => "lamp event handler closed prematurely".to_owned(),
        }
    }

    /// The text of the error, given that of what was known of the action.
    pub fn text(&self, before: &str) -> (r: String)
        requires
            self.wf(),
        ensures
            exists|reqwest: Seq<char>|
                crate::tester::request::shows_error(self.transport(), reqwest)
                    && r@ == #[trigger] self.described(reqwest, before@),
    {
        self.describe(shown_error(self.transport_error()).as_str(), before)
    }
}

/// Properties as they are shown, one below the other.
pub open spec fn shown_props(props: Props) -> Seq<char> {
    "Props {\n    brightness: "@ + crate::text::signed_decimal(props.brightness as int)
        + ",\n    on: "@ + (if props.on {
        "true"@
    } else {
        "false"@
    }) + ",\n}"@
}

fn show_props(props: &Props) -> (r: String)
    ensures
        r@ == shown_props(*props),
{
    let mut r: String = join(
        "Props {\n    brightness: ",
        signed_decimal_text(props.brightness).as_str(),
    );
    r.append(",\n    on: ");
    if props.on {
        r.append("true");
    } else {
        r.append("false");
    }
    r.append(",\n}");
    r
}

/// A fade as it is shown.
pub open spec fn shown_fade(fade: FadeAction) -> Seq<char> {
    "FadeAction { brightness: "@ + crate::text::decimal(fade.brightness as nat) + ", duration: "@
        + crate::text::decimal(fade.duration as nat) + " }"@
}

/// A fade that may be missing, as it is shown.
pub open spec fn shown_opt_fade(fade: Option<FadeAction>) -> Seq<char> {
    match fade {
        Some(fade) => "Some("@ + shown_fade(fade) + ")"@,
        None => "None"@,
    }
}

fn show_fade(fade: &FadeAction) -> (r: String)
    ensures
        r@ == shown_fade(*fade),
{
    let mut r: String = join(
        "FadeAction { brightness: ",
        decimal_text(fade.brightness as u64).as_str(),
    );
    r.append(", duration: ");
    r.append(decimal_text(fade.duration as u64).as_str());
    r.append(" }");
    r
}

fn show_opt_fade(fade: &Option<FadeAction>) -> (r: String)
    ensures
        r@ == shown_opt_fade(*fade),
{
    match fade {
        Some(fade) => join(join("Some(", show_fade(fade).as_str()).as_str(), ")"),
        None => "None".to_owned(),
    }
}

impl LampError {
    /// A status in the error is one.
    pub open spec fn wf(self) -> bool {
        match self {
            LampError::OkStatus(status) => 100 <= status <= 999,
            LampError::NoContentStatus(status) => 100 <= status <= 999,
            LampError::CreatedStatus(status) => 100 <= status <= 999,
            LampError::Watch(error) => error.wf(),
            _ => true,
        }
    }

    /// Whether a status in the error is one.
    pub fn is_wf(&self) -> (r: bool)
        ensures
            r == self.wf(),
    {
        match self {
            LampError::OkStatus(status) => 100 <= *status && *status <= 999,
            LampError::NoContentStatus(status) => 100 <= *status && *status <= 999,
            LampError::CreatedStatus(status) => 100 <= *status && *status <= 999,
            LampError::Watch(error) => error.is_wf(),
            _ => true,
        }
    }

    /// The transport error whose text is part of that of this error, if there is one.
    pub open spec fn transport(self) -> Option<reqwest::Error> {
        match self {
            LampError::Reqwest(error) => Some(error),
            LampError::Write(error) => error.transport(),
            LampError::Watch(error) => error.transport(),
            _ => None,
        }
    }

    /// The transport error whose text is part of that of this error, if there is one.
    pub fn transport_error(&self) -> (r: Option<&reqwest::Error>)
        ensures
            match r {
                Some(error) => self.transport() == Some(*error),
                None => self.transport() is None,
            },
    {
        match self {
            LampError::Reqwest(error) => Some(error),
            LampError::Write(error) => error.transport_error(),
            LampError::Watch(error) => error.transport_error(),
            _ => None,
        }
    }

    /// The text of the error, given those of a transport error, of the description of
    /// the lamp and of the description, the message or the status of an action that the
    /// error holds.
    pub open spec fn described(
        self,
        reqwest: Seq<char>,
        lamp: Seq<char>,
        held: Seq<char>,
    ) -> Seq<char> {
        match self {
            LampError::OkStatus(status) => "Expected OK status code, got "@
                + crate::trusted::status_phrase(status),
            LampError::NoContentStatus(status) => "Expected NO_CONTENT status code, got "@
                + crate::trusted::status_phrase(status),
            LampError::CreatedStatus(status) => "Expected CREATED status code, got "@
                + crate::trusted::status_phrase(status),
            LampError::Reqwest(_) => reqwest,
            LampError::Write(error) => error.described(reqwest),
            LampError::Description(_) => "Invalid lamp. Expected:\n"@ + lamp + "\nObtained:\n"@ + held,
            LampError::Props(found) => "Invalid lamp props. Expected:\n"@ + shown_props(
                crate::tester::lamp::active::initial_props(),
            ) + "\nObtained:\n"@ + shown_props(found),
            LampError::Brightness { expected, found } => "Invalid lamp brightness. Expected "@
                + crate::text::signed_decimal(expected as int) + ", got "@
                + crate::text::signed_decimal(found as int),
            LampError::Incoming(error) => error.described(held),
            LampError::BrightnessEvent => "invalid lamp brightness status event"@,
            LampError::UnexpectedEvent(_) =>
                "unexpected event from lamp when setting brightness: "@ + held,
            LampError::StreamClosed => "lamp events stream closed unexpectedly"@,
            LampError::NoBrightnessEvent =>
                "one or more brightness event is expected after the value has been set"@,
            LampError::FadeFailed => "Lamp fade action unexpectedly returned an error"@,
            LampError::FadeStatus(status) =>
                "Invalid lamp fade action response. Expected status \"running\" or \"pending\", received "@
                    + status.name(),
            LampError::FadeOutput(found) =>
                "Invalid lamp fade action response. Expected output "@ + shown_fade(
                crate::tester::lamp::active::asked_fade(),
            ) + ", got "@ + shown_opt_fade(found),
            LampError::NoLocation => "Lamp fade action should respond with a 'Location' header"@,
            LampError::UnreadableLocation => "failed to convert header to a str"@,
            LampError::WrongLocation =>
                "Lamp fade action location should start with '/actions/fade/'"@,
            LampError::IncoherentLocation =>
                "Lamp fade action href in body must be coherent with location header"@,
            LampError::FadeOver => "Fade action should be running or pending after being created"@,
            LampError::Watch(error) => "error while waiting for lamp events: "@ + error.described(
                reqwest,
                held,
            ),
            LampError::MissingEvents =>
                "not all the expected events are received from the lamp"@,
        }
    }

    /// The text of the error, given those of a transport error, of the description of
    /// the lamp and of the description, the message or the status of an action that the
    /// error holds.
    pub fn describe(&self, reqwest: &str, lamp: &str, held: &str) -> (r: String)
        requires
            self.wf(),
        ensures
            r@ == self.described(reqwest@, lamp@, held@),
    {
        match self {
            LampError::OkStatus(status) => join(
                "Expected OK status code, got ",
                show_status(*status).as_str(),
            ),
            LampError::NoContentStatus(status) => join(
                "Expected NO_CONTENT status code, got ",
                show_status(*status).as_str(),
            ),
            LampError::CreatedStatus(status) => join(
                "Expected CREATED status code, got ",
                show_status(*status).as_str(),
            ),
            LampError::Reqwest(_) => reqwest.to_owned(),
            LampError::Write(error) => error.describe(reqwest),
            LampError::Description(_) => {
                let mut r: String = join("Invalid lamp. Expected:\n", lamp);
                r.append("\nObtained:\n");
                r.append(held);
                r
            },
            LampError::Props(found) => {
                let expected: Props = Props { brightness: INITIAL_BRIGHTNESS, on: true };
                let mut r: String = join(
                    "Invalid lamp props. Expected:\n",
                    show_props(&expected).as_str(),
                );
                r.append("\nObtained:\n");
                r.append(show_props(found).as_str());
                r
            },
            LampError::Brightness { expected, found } => {
                let mut r: String = join(
                    "Invalid lamp brightness. Expected ",
                    signed_decimal_text(*expected).as_str(),
                );
                r.append(", got ");
                r.append(signed_decimal_text(*found).as_str());
                r
            },
            LampError::Incoming(error) => error.describe(held),
            LampError::BrightnessEvent => "invalid lamp brightness status event".to_owned(),
            LampError::UnexpectedEvent(_) => join(
                "unexpected event from lamp when setting brightness: ",
                held,
            ),
            LampError::StreamClosed => "lamp events stream closed unexpectedly".to_owned(),
            LampError::NoBrightnessEvent => {
                "one or more brightness event is expected after the value has been set".to_owned()
            },
            LampError::FadeFailed => "Lamp fade action unexpectedly returned an error".to_owned(),
            LampError::FadeStatus(status) => join(
                "Invalid lamp fade action response. Expected status \"running\" or \"pending\", received ",
                status.show(),
            ),
            LampError::FadeOutput(found) => {
                let asked: FadeAction = FadeAction {
                    brightness: FADE_END,
                    duration: FADE_MILLIS,
                };
                let mut r: String = join(
                    "Invalid lamp fade action response. Expected output ",
                    show_fade(&asked).as_str(),
                );
                r.append(", got ");
                r.append(show_opt_fade(found).as_str());
                r
            },
            LampError::NoLocation => {
                "Lamp fade action should respond with a 'Location' header".to_owned()
            },
            LampError::UnreadableLocation => "failed to convert header to a str".to_owned(),
            LampError::WrongLocation => {
                "Lamp fade action location should start with '/actions/fade/'".to_owned()
            },
            LampError::IncoherentLocation => {
                "Lamp fade action href in body must be coherent with location header".to_owned()
            },
            LampError::FadeOver => {
                "Fade action should be running or pending after being created".to_owned()
            },
            LampError::Watch(error) => join(
                "error while waiting for lamp events: ",
                error.describe(reqwest, held).as_str(),
            ),
            LampError::MissingEvents => {
                "not all the expected events are received from the lamp".to_owned()
            },
        }
    }

    /// The text of the error, given those of the description of the lamp and of the
    /// description, the message or the status of an action that the error holds.
    pub fn text(&self, lamp: &str, held: &str) -> (r: String)
        requires
            self.wf(),
        ensures
            exists|reqwest: Seq<char>|
                crate::tester::request::shows_error(self.transport(), reqwest)
                    && r@ == #[trigger] self.described(reqwest, lamp@, held@),
    {
        self.describe(shown_error(self.transport_error()).as_str(), lamp, held)
    }
}

} // verus!
