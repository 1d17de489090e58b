//! The requests to a lamp and the judgement of its answers and events.

use vstd::prelude::*;

use crate::lamp::{is_lamp_description, Brightness, Status};
use crate::td::ThingDescription;
use crate::tester::lamp::watch::{WatchError, FADE_END, FADE_MILLIS};
use crate::tester::lamp::Message;
use crate::tester::{
    ActionResponse, ActionResponseStatus, IncomingMessageError, IntoFutureError, CREATED, OK,
};
use crate::text::{begins_with, same_text};
use crate::trusted::header_text;

verus! {

/// The brightness in which a lamp is found and left.
pub const INITIAL_BRIGHTNESS: Brightness = 50;

/// The brightness that is set.
pub const SET_BRIGHTNESS: Brightness = 25;

/// How long events are waited for after the brightness was set, in milliseconds.
pub const SET_MILLIS: u64 = 50;

/// How long after one poll of the fade action the next one follows, in milliseconds.
pub const POLL_MILLIS: u64 = 100;

/// How long the end of the fade is waited for, in milliseconds.
pub const FADE_TIMEOUT_MILLIS: u64 = 2100;

/// The properties of a lamp.
#[derive(Clone, Copy, Debug, PartialEq, Eq, Structural)]
pub struct Props {
    /// The brightness.
    pub brightness: Brightness,
    /// Whether it is on.
    pub on: Status,
}

/// The input of a fade action.
#[derive(Clone, Copy, Debug, PartialEq, Eq, Structural)]
pub struct FadeAction {
    /// The brightness to reach.
    pub brightness: u32,
    /// The duration in milliseconds.
    pub duration: u32,
}

/// The fade that is asked for.
pub open spec fn asked_fade() -> FadeAction {
    FadeAction { brightness: FADE_END, duration: FADE_MILLIS }
}

/// The properties in which a lamp is found.
pub open spec fn initial_props() -> Props {
    Props { brightness: INITIAL_BRIGHTNESS, on: true }
}

/// Where the answer to a started action says that the action is found.
#[derive(Debug)]
pub enum Location {
    /// It does not say.
    Missing,
    /// What it says is no readable text.
    Unreadable,
    /// Here.
    At(String),
}

/// The location in a `Location` header.
pub fn read_location(header: Option<&[u8]>) -> (r: Location)
    ensures
        match r {
            Location::Missing => header is None,
            Location::Unreadable => header matches Some(bytes) && exists|i: int|
                0 <= i < bytes@.len() && !crate::trusted::readable(#[trigger] bytes@[i]),
            Location::At(href) => header matches Some(bytes) && (forall|i: int|
                0 <= i < bytes@.len() ==> crate::trusted::readable(#[trigger] bytes@[i])) && href@
                == crate::trusted::ascii(bytes@),
        },
{
    match header {
        None => Location::Missing,
        Some(bytes) => match header_text(bytes) {
            Some(href) => Location::At(href),
            None => Location::Unreadable,
        },
    }
}

/// Why a lamp failed its test.
#[derive(Debug)]
pub enum LampError {
    /// The answer to a read has another status than `OK`.
    OkStatus(u16),
    /// The answer to a write has another status than `NO_CONTENT`.
    NoContentStatus(u16),
    /// The answer to the fade action has another status than `CREATED`.
    CreatedStatus(u16),
    /// A request could not be sent, or its answer not be read.
    Reqwest(reqwest::Error),
    /// A write failed.
    Write(IntoFutureError),
    /// The description is not that of the lamp.
    Description(ThingDescription),
    /// The properties are not those in which a lamp is found.
    Props(Props),
    /// The brightness is another one than it should be.
    Brightness {
        /// The brightness that it should be.
        expected: Brightness,
        /// The brightness that was read.
        found: Brightness,
    },
    /// A message came when none was expected.
    Incoming(IncomingMessageError<Message>),
    /// An event tells another brightness than was set, or not when it was.
    BrightnessEvent,
    /// Another event than of the brightness came after it was set.
    UnexpectedEvent(Message),
    /// No events can come any more.
    StreamClosed,
    /// No event came after the brightness was set.
    NoBrightnessEvent,
    /// The fade action tells an error.
    FadeFailed,
    /// The fade action is neither running nor pending.
    FadeStatus(ActionResponseStatus),
    /// The fade action tells another fade than was asked for.
    FadeOutput(Option<FadeAction>),
    /// The answer does not say where the action is found.
    NoLocation,
    /// The location is no readable text.
    UnreadableLocation,
    /// The location is not below that of the fade action.
    WrongLocation,
    /// The answer holds two locations that differ.
    IncoherentLocation,
    /// The fade action is over at once.
    FadeOver,
    /// Something went wrong while the lamp faded.
    Watch(WatchError),
    /// Events were missing when the fade was over.
    MissingEvents,
}

/// The judgement of an answer to a read, given that of what was read.
pub open spec fn read_ok<T>(
    answer: Result<(u16, T), reqwest::Error>,
    judge: spec_fn(T) -> Option<LampError>,
) -> Option<LampError> {
    match answer {
        Err(error) => Some(LampError::Reqwest(error)),
        Ok((status, found)) => if status != OK {
            Some(LampError::OkStatus(status))
        } else {
            judge(found)
        },
    }
}

/// What an answer that holds a description gets wrong.
pub open spec fn description_defect(
    answer: Result<(u16, ThingDescription), reqwest::Error>,
) -> Option<LampError> {
    read_ok(
        answer,
        |found: ThingDescription|
            if crate::lamp::equals_lamp(found) {
                None
            } else {
                Some(LampError::Description(found))
            },
    )
}

/// What an answer that holds the properties gets wrong.
pub open spec fn props_defect(answer: Result<(u16, Props), reqwest::Error>) -> Option<LampError> {
    read_ok(
        answer,
        |found: Props|
            if found == initial_props() {
                None
            } else {
                Some(LampError::Props(found))
            },
    )
}

/// What an answer that holds a brightness gets wrong.
pub open spec fn brightness_defect(
    answer: Result<(u16, Brightness), reqwest::Error>,
    expected: Brightness,
) -> Option<LampError> {
    read_ok(
        answer,
        |found: Brightness|
            if found == expected {
                None
            } else {
                Some(LampError::Brightness { expected, found })
            },
    )
}

/// What an answer to a started fade gets wrong first.
pub open spec fn start_defect(
    answer: Result<(u16, Location, ActionResponse<FadeAction>), reqwest::Error>,
) -> Option<LampError> {
    match answer {
        Err(error) => Some(LampError::Reqwest(error)),
        Ok((status, location, response)) => if status != CREATED {
            Some(LampError::CreatedStatus(status))
        } else if response.error is Some {
            Some(LampError::FadeFailed)
        } else if !(response.status is Running || response.status is Pending) {
            Some(LampError::FadeStatus(response.status))
        } else if response.output != Some(asked_fade()) {
            Some(LampError::FadeOutput(response.output))
        } else {
            match location {
                Location::Missing => Some(LampError::NoLocation),
                Location::Unreadable => Some(LampError::UnreadableLocation),
                Location::At(href) => if !("/actions/fade/"@).is_prefix_of(href@) {
                    Some(LampError::WrongLocation)
                } else if response.href matches Some(body) && body@ != href@ {
                    Some(LampError::IncoherentLocation)
                } else {
                    None
                },
            }
        },
    }
}

/// What an answer to a query of the started fade gets wrong first.
pub open spec fn query_defect(
    answer: Result<(u16, ActionResponse<FadeAction>), reqwest::Error>,
) -> Option<LampError> {
    read_ok(
        answer,
        |response: ActionResponse<FadeAction>|
            if response.status is Running || response.status is Pending {
                None
            } else {
                Some(LampError::FadeOver)
            },
    )
}

pub fn check_description(answer: Result<(u16, ThingDescription), reqwest::Error>) -> (r: Option<
    LampError,
>)
    ensures
        r == description_defect(answer),
{
    match answer {
        Err(error) => Some(LampError::Reqwest(error)),
        Ok((status, found)) => {
            if status != OK {
                Some(LampError::OkStatus(status))
            } else if is_lamp_description(&found) {
                None
            } else {
                Some(LampError::Description(found))
            }
        },
    }
}

pub fn check_props(answer: Result<(u16, Props), reqwest::Error>) -> (r: Option<LampError>)
    ensures
        r == props_defect(answer),
{
    match answer {
        Err(error) => Some(LampError::Reqwest(error)),
        Ok((status, found)) => {
            if status != OK {
                Some(LampError::OkStatus(status))
            } else if found == (Props { brightness: INITIAL_BRIGHTNESS, on: true }) {
                None
            } else {
                Some(LampError::Props(found))
            }
        },
    }
}

pub fn check_brightness(
    answer: Result<(u16, Brightness), reqwest::Error>,
    expected: Brightness,
) -> (r: Option<LampError>)
    ensures
        r == brightness_defect(answer, expected),
{
    match answer {
        Err(error) => Some(LampError::Reqwest(error)),
        Ok((status, found)) => {
            if status != OK {
                Some(LampError::OkStatus(status))
            } else if found == expected {
                None
            } else {
                Some(LampError::Brightness { expected, found })
            }
        },
    }
}

/// Checks the answer to a started fade: where the action is found, or what the answer
/// gets wrong.
pub fn check_start(
    answer: Result<(u16, Location, ActionResponse<FadeAction>), reqwest::Error>,
) -> (r: Result<String, LampError>)
    ensures
        match r {
            Ok(href) => start_defect(answer) is None && answer->Ok_0.1 == Location::At(href),
            Err(error) => start_defect(answer) == Some(error),
        },
{
    let (status, location, response): (u16, Location, ActionResponse<FadeAction>) = match answer {
        Err(error) => {
            return Err(LampError::Reqwest(error));
        },
        Ok(parts) => parts,
    };
    if status != CREATED {
        return Err(LampError::CreatedStatus(status));
    }
    if response.error.is_some() {
        return Err(LampError::FadeFailed);
    }
    if !matches!(response.status, ActionResponseStatus::Running | ActionResponseStatus::Pending) {
        return Err(LampError::FadeStatus(response.status));
    }
    let asked: FadeAction = FadeAction { brightness: FADE_END, duration: FADE_MILLIS };
    match response.output {
        Some(told) => {
            if told != asked {
                return Err(LampError::FadeOutput(Some(told)));
            }
        },
        None => {
            return Err(LampError::FadeOutput(None));
        },
    }
    let href: String = match location {
        Location::Missing => {
            return Err(LampError::NoLocation);
        },
        Location::Unreadable => {
            return Err(LampError::UnreadableLocation);
        },
        Location::At(href) => href,
    };
    if !begins_with(href.as_str(), "/actions/fade/") {
        return Err(LampError::WrongLocation);
    }
    if let Some(body) = &response.href {
        if !same_text(body.as_str(), href.as_str()) {
            return Err(LampError::IncoherentLocation);
        }
    }
    Ok(href)
}

pub fn check_query(answer: Result<(u16, ActionResponse<FadeAction>), reqwest::Error>) -> (r: Option<
    LampError,
>)
    ensures
        r == query_defect(answer),
{
    match answer {
        Err(error) => Some(LampError::Reqwest(error)),
        Ok((status, response)) => {
            if status != OK {
                Some(LampError::OkStatus(status))
            } else if matches!(
                response.status,
                ActionResponseStatus::Running | ActionResponseStatus::Pending
            ) {
                None
            } else {
                Some(LampError::FadeOver)
            }
        },
    }
}

} // verus!
