//! The course of the test of a lamp: what is done when, and after what.

use vstd::prelude::*;

use crate::lamp::Brightness;
use crate::td::ThingDescription;
use crate::tester::lamp::active::{
    check_brightness, check_description, check_props, check_query, check_start, FadeAction,
    LampError, Location, Props, FADE_TIMEOUT_MILLIS, INITIAL_BRIGHTNESS, POLL_MILLIS,
    SET_BRIGHTNESS, SET_MILLIS,
};
use crate::tester::lamp::watch::{
    check_halfway, EventWatch, FadeEvents, PollWatch, WatchError, CHECK_MILLIS, FADE_END,
    FADE_MILLIS,
};
use crate::tester::lamp::{EventsError, Fade, Message, PolledActionStatus};
use crate::tester::{
    check_no_incoming_messages, description_endpoint, ActionResponse, IncomingMessageError,
    IntoFutureError, Method, Race, NO_CONTENT,
};

verus! {

/// What the events tell after the brightness was set.
#[derive(Debug)]
pub enum SetWatch {
    /// More events are waited for.
    Watching {
        /// Whether an event told the brightness.
        told: bool,
    },
    /// The time is over.
    TimedOut {
        /// Whether an event told the brightness.
        told: bool,
    },
    /// Something went wrong.
    Failed(LampError),
}

/// The read of the brightness while the lamp fades.
#[derive(Debug)]
pub enum CheckWatch {
    /// It is waited for its time.
    Waiting,
    /// The brightness is read.
    Reading,
    /// It is over.
    Done(Result<(), WatchError>),
}

/// How far the test of a lamp has come.
#[derive(Debug)]
pub enum LampState {
    /// The description is read.
    Describing,
    /// The properties are read.
    ReadingProps,
    /// The brightness is read.
    ReadingBrightness,
    /// The brightness is set, and events are waited for.
    Setting {
        /// The outcome of the write.
        written: Option<Result<(), LampError>>,
        /// What the events tell.
        watch: SetWatch,
    },
    /// The brightness that was set is read.
    Rereading,
    /// A fade is started.
    StartingFade,
    /// The fade is queried.
    QueryingFade {
        /// Where it is found.
        href: String,
    },
    /// The lamp fades.
    Fading {
        /// Where the fade is found.
        href: String,
        /// What the polls of the fade tell.
        polls: PollWatch,
        /// What a read of the brightness tells.
        check: CheckWatch,
        /// What the events tell.
        events: EventWatch,
    },
    /// The initial brightness is written.
    Restoring,
    /// The forwarding of events is stopped, then the test is over.
    Stopping(Result<(), LampError>),
}

/// What happens to the test of a lamp.
#[derive(Debug)]
pub enum LampInput {
    /// The status of the answer to a read, and the description.
    Description(Result<(u16, ThingDescription), reqwest::Error>),
    /// The status of the answer to a read, and the properties.
    Props(Result<(u16, Props), reqwest::Error>),
    /// The status of the answer to a read, and the brightness.
    Brightness(Result<(u16, Brightness), reqwest::Error>),
    /// The status of the answer to a write.
    Written(Result<u16, IntoFutureError>),
    /// The status of the answer to the fade action, the location in it, and what it
    /// tells.
    Started(Result<(u16, Location, ActionResponse<FadeAction>), reqwest::Error>),
    /// The status of the answer to a query, and what it tells of the fade.
    Queried(Result<(u16, ActionResponse<FadeAction>), reqwest::Error>),
    /// The outcome of a poll of the fade or, where there is none, the end of the polls.
    Polled(Option<Result<(u16, ActionResponse<Fade>), reqwest::Error>>),
    /// A message or, where there is none, the end of the channel.
    Message(Option<Message>),
    /// The time for events after the brightness was set is over.
    SetOver,
    /// It is time to read the brightness of the fading lamp.
    CheckDue,
    /// The time for polls of the fade is over.
    PollsOver,
    /// The time for events of the fading lamp is over.
    EventsOver,
    /// The forwarding of events is stopped.
    Stopped,
}

/// What the test of a lamp does.
#[derive(Clone, Copy, Debug, PartialEq, Eq, Structural)]
pub enum LampAction {
    /// Nothing but wait.
    Wait,
    /// The description is read.
    GetDescription,
    /// The properties are read.
    GetProps,
    /// The brightness is read.
    GetBrightness,
    /// The brightness is written. The answer should have no body. So many milliseconds
    /// are waited for events.
    SetBrightness(Brightness, u64),
    /// The fade is started.
    StartFade(FadeAction),
    /// The fade is read from where it is found.
    QueryFade,
    /// The fade is read from where it is found, again and again. From now on the time
    /// runs until the brightness is read and until the polls and the events are over.
    WatchFade {
        /// The time from one poll to the next, in milliseconds.
        period: u64,
        /// The time until the brightness is read, in milliseconds.
        check: u64,
        /// The time until the polls and the events are over, in milliseconds.
        timeout: u64,
    },
    /// The brightness is written. The answer should have no body.
    RestoreBrightness(Brightness),
    /// The forwarding of events is stopped.
    Stop,
}

impl LampAction {
    /// The method and the endpoint of the request, if it is one to a fixed endpoint.
    pub open spec fn target(self) -> Option<(Method, Seq<char>)> {
        match self {
            LampAction::GetDescription => Some((Method::Get, ".well-known/wot"@)),
            LampAction::GetProps => Some((Method::Get, "properties"@)),
            LampAction::GetBrightness => Some((Method::Get, "properties/brightness"@)),
            LampAction::SetBrightness(..) => Some((Method::Put, "properties/brightness"@)),
            LampAction::StartFade(_) => Some((Method::Post, "actions/fade"@)),
            LampAction::RestoreBrightness(_) => Some((Method::Put, "properties/brightness"@)),
            _ => None,
        }
    }

    /// The method and the endpoint of the request, if it is one to a fixed endpoint.
    pub fn request(&self) -> (r: Option<(Method, &'static str)>)
        ensures
            match r {
                Some((method, endpoint)) => self.target() == Some((method, endpoint@)),
                None => self.target() is None,
            },
    {
        match self {
            LampAction::GetDescription => Some((Method::Get, description_endpoint())),
            LampAction::GetProps => Some((Method::Get, "properties")),
            LampAction::GetBrightness => Some((Method::Get, "properties/brightness")),
            LampAction::SetBrightness(..) => Some((Method::Put, "properties/brightness")),
            LampAction::StartFade(_) => Some((Method::Post, "actions/fade")),
            LampAction::RestoreBrightness(_) => Some((Method::Put, "properties/brightness")),
            _ => None,
        }
    }
}

/// How the test of a lamp goes on.
#[derive(Debug)]
pub enum LampNext {
    /// It does something and waits for what happens.
    Continue(LampState, LampAction),
    /// It is over.
    Finish(Result<(), LampError>),
}

/// The judgement of a write.
pub open spec fn written_ok(answer: Result<u16, IntoFutureError>) -> Result<(), LampError> {
    match answer {
        Err(error) => Err(LampError::Write(error)),
        Ok(status) => if status == NO_CONTENT {
            Ok(())
        } else {
            Err(LampError::NoContentStatus(status))
        },
    }
}

fn check_written(answer: Result<u16, IntoFutureError>) -> (r: Result<(), LampError>)
    ensures
        r == written_ok(answer),
{
    match answer {
        Err(error) => Err(LampError::Write(error)),
        Ok(status) => {
            if status == NO_CONTENT {
                Ok(())
            } else {
                Err(LampError::NoContentStatus(status))
            }
        },
    }
}

/// What a message tells after the brightness was set.
pub open spec fn told_by(message: Option<Message>) -> SetWatch {
    match message {
        Some(Message::Brightness { brightness, timestamp, .. }) => if brightness != SET_BRIGHTNESS
            || timestamp is None {
            SetWatch::Failed(LampError::BrightnessEvent)
        } else {
            SetWatch::Watching { told: true }
        },
        Some(message) => SetWatch::Failed(LampError::UnexpectedEvent(message)),
        None => SetWatch::Failed(LampError::StreamClosed),
    }
}

fn check_message(message: Option<Message>) -> (r: SetWatch)
    ensures
        r == told_by(message),
{
    match message {
        Some(Message::Brightness { global, brightness, timestamp }) => {
            if brightness as i64 != SET_BRIGHTNESS || timestamp.is_none() {
                SetWatch::Failed(LampError::BrightnessEvent)
            } else {
                SetWatch::Watching { told: true }
            }
        },
        Some(message) => SetWatch::Failed(LampError::UnexpectedEvent(message)),
        None => SetWatch::Failed(LampError::StreamClosed),
    }
}

/// How the test goes on from a read that must come out right while no message may
/// come.
pub open spec fn guarded(defect: Option<LampError>, state: LampState, action: LampAction) -> LampNext {
    match defect {
        Some(error) => LampNext::Finish(Err(error)),
        None => LampNext::Continue(state, action),
    }
}

/// How the test goes on when a message comes while none may.
pub open spec fn intruded(message: Option<Message>) -> LampNext {
    LampNext::Finish(
        Err(
            LampError::Incoming(
                match message {
                    Some(message) => IncomingMessageError::UnexpectedMessage(message),
                    None => IncomingMessageError::ChannelClosed,
                },
            ),
        ),
    )
}

/// How the test goes on from the write of the brightness and the events after it:
/// both are waited for, and an error of the write comes before one of the events.
pub open spec fn after_setting(
    written: Option<Result<(), LampError>>,
    watch: SetWatch,
) -> LampNext {
    match (written, watch) {
        (None, _) => LampNext::Continue(LampState::Setting { written, watch }, LampAction::Wait),
        (_, SetWatch::Watching { .. }) => LampNext::Continue(
            LampState::Setting { written, watch },
            LampAction::Wait,
        ),
        (Some(Err(error)), _) => LampNext::Finish(Err(error)),
        (Some(Ok(())), SetWatch::Failed(error)) => LampNext::Finish(Err(error)),
        (Some(Ok(())), SetWatch::TimedOut { told: false }) => LampNext::Finish(
            Err(LampError::NoBrightnessEvent),
        ),
        (Some(Ok(())), SetWatch::TimedOut { told: true }) => LampNext::Continue(
            LampState::Rereading,
            LampAction::GetBrightness,
        ),
    }
}

/// How the test goes on from the polls, the read and the events of a fading lamp: all
/// three are waited for, and an error of one comes before those of the ones after it.
/// An error ends the test once the forwarding of events is stopped.
pub open spec fn after_fading(
    href: String,
    polls: PollWatch,
    check: CheckWatch,
    events: EventWatch,
    action: LampAction,
) -> LampNext {
    match (polls, check, events) {
        (PollWatch::Polling(_), _, _) => LampNext::Continue(
            LampState::Fading { href, polls, check, events },
            action,
        ),
        (_, CheckWatch::Waiting, _) => LampNext::Continue(
            LampState::Fading { href, polls, check, events },
            action,
        ),
        (_, CheckWatch::Reading, _) => LampNext::Continue(
            LampState::Fading { href, polls, check, events },
            action,
        ),
        (_, _, EventWatch::Watching(_)) => LampNext::Continue(
            LampState::Fading { href, polls, check, events },
            action,
        ),
        (PollWatch::Done(Err(error)), _, _) => LampNext::Continue(
            LampState::Stopping(Err(LampError::Watch(error))),
            LampAction::Stop,
        ),
        (_, CheckWatch::Done(Err(error)), _) => LampNext::Continue(
            LampState::Stopping(Err(LampError::Watch(error))),
            LampAction::Stop,
        ),
        (_, _, EventWatch::Done(Err(error))) => LampNext::Continue(
            LampState::Stopping(Err(LampError::Watch(error))),
            LampAction::Stop,
        ),
        (_, _, EventWatch::TimedOut) => LampNext::Continue(
            LampState::Stopping(Err(LampError::MissingEvents)),
            LampAction::Stop,
        ),
        (_, _, EventWatch::Done(Ok(()))) => LampNext::Continue(
            LampState::Restoring,
            LampAction::RestoreBrightness(INITIAL_BRIGHTNESS),
        ),
    }
}

fn set_next(written: Option<Result<(), LampError>>, watch: SetWatch) -> (next: LampNext)
    ensures
        next == after_setting(written, watch),
{
    match (written, watch) {
        (None, watch) => LampNext::Continue(
            LampState::Setting { written: None, watch },
            LampAction::Wait,
        ),
        (written, SetWatch::Watching { told }) => LampNext::Continue(
            LampState::Setting { written, watch: SetWatch::Watching { told } },
            LampAction::Wait,
        ),
        (Some(Err(error)), _) => LampNext::Finish(Err(error)),
        (Some(Ok(())), SetWatch::Failed(error)) => LampNext::Finish(Err(error)),
        (Some(Ok(())), SetWatch::TimedOut { told }) => {
            if told {
                LampNext::Continue(LampState::Rereading, LampAction::GetBrightness)
            } else {
                LampNext::Finish(Err(LampError::NoBrightnessEvent))
            }
        },
    }
}

fn stop_with(error: LampError) -> (next: LampNext)
    ensures
        next == LampNext::Continue(LampState::Stopping(Err(error)), LampAction::Stop),
{
    LampNext::Continue(LampState::Stopping(Err(error)), LampAction::Stop)
}

fn fade_next(
    href: String,
    polls: PollWatch,
    check: CheckWatch,
    events: EventWatch,
    action: LampAction,
) -> (next: LampNext)
    ensures
        next == after_fading(href, polls, check, events, action),
{
    let waits: bool = matches!(polls, PollWatch::Polling(_)) || !matches!(check, CheckWatch::Done(_))
        || matches!(events, EventWatch::Watching(_));
    if waits {
        return LampNext::Continue(LampState::Fading { href, polls, check, events }, action);
    }
    match (polls, check, events) {
        (PollWatch::Done(Err(error)), _, _) => stop_with(LampError::Watch(error)),
        (_, CheckWatch::Done(Err(error)), _) => stop_with(LampError::Watch(error)),
        (_, _, EventWatch::Done(Err(error))) => stop_with(LampError::Watch(error)),
        (_, _, EventWatch::TimedOut) => stop_with(LampError::MissingEvents),
        _ => LampNext::Continue(
            LampState::Restoring,
            LampAction::RestoreBrightness(INITIAL_BRIGHTNESS),
        ),
    }
}

impl LampState {
    /// No message may come.
    pub open spec fn is_guarded(self) -> bool {
        ||| self is Describing
        ||| self is ReadingProps
        ||| self is ReadingBrightness
        ||| self is Rereading
    }

    /// Messages are taken.
    pub open spec fn takes_messages(self) -> bool {
        ||| self.is_guarded()
        ||| self matches LampState::Setting { watch: SetWatch::Watching { .. }, .. }
        ||| self matches LampState::Fading { events: EventWatch::Watching(_), .. }
    }

    /// The input can happen in this state.
    pub open spec fn expects(self, input: LampInput) -> bool {
        match input {
            LampInput::Description(_) => self is Describing,
            LampInput::Props(_) => self is ReadingProps,
            LampInput::Brightness(_) => {
                ||| self is ReadingBrightness
                ||| self is Rereading
                ||| self matches LampState::Fading { check: CheckWatch::Reading, .. }
            },
            LampInput::Written(_) => {
                ||| self matches LampState::Setting { written: None, .. }
                ||| self is Restoring
            },
            LampInput::Started(_) => self is StartingFade,
            LampInput::Queried(_) => self is QueryingFade,
            LampInput::Polled(_) => self matches LampState::Fading {
                polls: PollWatch::Polling(_),
                ..
            },
            LampInput::Message(_) => self.takes_messages(),
            LampInput::SetOver => self matches LampState::Setting {
                watch: SetWatch::Watching { .. },
                ..
            },
            LampInput::CheckDue => self matches LampState::Fading {
                check: CheckWatch::Waiting,
                ..
            },
            LampInput::PollsOver => self matches LampState::Fading {
                polls: PollWatch::Polling(_),
                ..
            },
            LampInput::EventsOver => self matches LampState::Fading {
                events: EventWatch::Watching(_),
                ..
            },
            LampInput::Stopped => self is Stopping,
        }
    }

    /// How the test goes on after an input.
    pub open spec fn after(self, input: LampInput) -> LampNext {
        match (self, input) {
            (LampState::Describing, LampInput::Description(answer)) => guarded(
                crate::tester::lamp::active::description_defect(answer),
                LampState::ReadingProps,
                LampAction::GetProps,
            ),
            (LampState::ReadingProps, LampInput::Props(answer)) => guarded(
                crate::tester::lamp::active::props_defect(answer),
                LampState::ReadingBrightness,
                LampAction::GetBrightness,
            ),
            (LampState::ReadingBrightness, LampInput::Brightness(answer)) => guarded(
                crate::tester::lamp::active::brightness_defect(answer, INITIAL_BRIGHTNESS),
                LampState::Setting { written: None, watch: SetWatch::Watching { told: false } },
                LampAction::SetBrightness(SET_BRIGHTNESS, SET_MILLIS),
            ),
            (LampState::Setting { watch, .. }, LampInput::Written(answer)) => after_setting(
                Some(written_ok(answer)),
                watch,
            ),
            (LampState::Setting { written, .. }, LampInput::Message(message)) => after_setting(
                written,
                told_by(message),
            ),
            (
                LampState::Setting { written, watch: SetWatch::Watching { told } },
                LampInput::SetOver,
            ) => after_setting(written, SetWatch::TimedOut { told }),
            (LampState::Rereading, LampInput::Brightness(answer)) => guarded(
                crate::tester::lamp::active::brightness_defect(answer, SET_BRIGHTNESS),
                LampState::StartingFade,
                LampAction::StartFade(crate::tester::lamp::active::asked_fade()),
            ),
            (LampState::StartingFade, LampInput::Started(answer)) =>
                match crate::tester::lamp::active::start_defect(answer) {
                Some(error) => LampNext::Finish(Err(error)),
                None => LampNext::Continue(
                    LampState::QueryingFade { href: answer->Ok_0.1->At_0 },
                    LampAction::QueryFade,
                ),
            },
            (LampState::QueryingFade { href }, LampInput::Queried(answer)) =>
                match crate::tester::lamp::active::query_defect(answer) {
                Some(error) => LampNext::Finish(Err(error)),
                None => LampNext::Continue(
                    LampState::Fading {
                        href,
                        polls: PollWatch::Polling(PolledActionStatus::Unknown),
                        check: CheckWatch::Waiting,
                        events: EventWatch::Watching(FadeEvents::nothing()),
                    },
                    LampAction::WatchFade {
                        period: POLL_MILLIS,
                        check: CHECK_MILLIS,
                        timeout: FADE_TIMEOUT_MILLIS,
                    },
                ),
            },
            (LampState::Fading { href, polls, check, events }, LampInput::Polled(action)) =>
                after_fading(href, polls.polled(action), check, events, LampAction::Wait),
            (LampState::Fading { href, polls, check, events }, LampInput::PollsOver) =>
                after_fading(href, polls.timed_out(), check, events, LampAction::Wait),
            (LampState::Fading { href, polls, events, .. }, LampInput::CheckDue) => after_fading(
                href,
                polls,
                CheckWatch::Reading,
                events,
                LampAction::GetBrightness,
            ),
            (LampState::Fading { href, polls, events, .. }, LampInput::Brightness(answer)) =>
                after_fading(
                href,
                polls,
                CheckWatch::Done(crate::tester::lamp::watch::check_of(answer)),
                events,
                LampAction::Wait,
            ),
            (LampState::Fading { href, polls, check, events }, LampInput::Message(message)) =>
                after_fading(href, polls, check, events.received(message), LampAction::Wait),
            (LampState::Fading { href, polls, check, events }, LampInput::EventsOver) =>
                after_fading(href, polls, check, events.timed_out(), LampAction::Wait),
            (_, LampInput::Message(message)) => intruded(message),
            (LampState::Restoring, LampInput::Written(Err(error))) => LampNext::Finish(
                Err(LampError::Write(error)),
            ),
            (LampState::Restoring, LampInput::Written(Ok(_))) => LampNext::Continue(
                LampState::Stopping(Ok(())),
                LampAction::Stop,
            ),
            (LampState::Stopping(result), LampInput::Stopped) => LampNext::Finish(result),
            _ => arbitrary(),
        }
    }

    /// Starts the test of a lamp.
    pub fn start() -> (r: (LampState, LampAction))
        ensures
            r == (LampState::Describing, LampAction::GetDescription),
    {
        (LampState::Describing, LampAction::GetDescription)
    }

    /// Whether messages are taken.
    pub fn listens(&self) -> (r: bool)
        ensures
            r == self.takes_messages(),
    {
        match self {
            LampState::Describing => true,
            LampState::ReadingProps => true,
            LampState::ReadingBrightness => true,
            LampState::Rereading => true,
            LampState::Setting { watch, .. } => matches!(watch, SetWatch::Watching { .. }),
            LampState::Fading { events, .. } => matches!(events, EventWatch::Watching(_)),
            _ => false,
        }
    }

    /// Where the fade is found.
    pub open spec fn fade_at(self) -> Option<Seq<char>> {
        match self {
            LampState::QueryingFade { href } => Some(href@),
            LampState::Fading { href, .. } => Some(href@),
            _ => None,
        }
    }

    /// Where the fade is found.
    pub fn fade_href(&self) -> (r: Option<&str>)
        ensures
            match r {
                Some(href) => self.fade_at() == Some(href@),
                None => self.fade_at() is None,
            },
    {
        match self {
            LampState::QueryingFade { href } => Some(href.as_str()),
            LampState::Fading { href, .. } => Some(href.as_str()),
            _ => None,
        }
    }

    /// The method and the endpoint of the request that an action makes in this state, if
    /// it makes one: the fade is read from where it is found.
    pub open spec fn target_of(self, action: LampAction) -> Option<(Method, Seq<char>)> {
        match action {
            LampAction::QueryFade | LampAction::WatchFade { .. } => match self.fade_at() {
                Some(href) => Some((Method::Get, href)),
                None => None,
            },
            _ => action.target(),
        }
    }

    /// The method and the endpoint of the request that an action makes in this state, if
    /// it makes one.
    pub fn request_for(&self, action: LampAction) -> (r: Option<(Method, &str)>)
        ensures
            match r {
                Some((method, endpoint)) => self.target_of(action) == Some((method, endpoint@)),
                None => self.target_of(action) is None,
            },
    {
        match action {
            LampAction::QueryFade | LampAction::WatchFade { .. } => match self.fade_href() {
                Some(href) => Some((Method::Get, href)),
                None => None,
            },
            _ => action.request(),
        }
    }

    /// Whether the input can happen in this state.
    pub fn accepts(&self, input: &LampInput) -> (r: bool)
        ensures
            r == self.expects(*input),
    {
        match (input, self) {
            (LampInput::Description(_), LampState::Describing) => true,
            (LampInput::Props(_), LampState::ReadingProps) => true,
            (LampInput::Brightness(_), LampState::ReadingBrightness) => true,
            (LampInput::Brightness(_), LampState::Rereading) => true,
            (LampInput::Brightness(_), LampState::Fading { check, .. }) => {
                matches!(check, CheckWatch::Reading)
            },
            (LampInput::Written(_), LampState::Setting { written, .. }) => written.is_none(),
            (LampInput::Written(_), LampState::Restoring) => true,
            (LampInput::Started(_), LampState::StartingFade) => true,
            (LampInput::Queried(_), LampState::QueryingFade { .. }) => true,
            (LampInput::Polled(_), LampState::Fading { polls, .. }) => {
                matches!(polls, PollWatch::Polling(_))
            },
            (LampInput::PollsOver, LampState::Fading { polls, .. }) => {
                matches!(polls, PollWatch::Polling(_))
            },
            (LampInput::CheckDue, LampState::Fading { check, .. }) => {
                matches!(check, CheckWatch::Waiting)
            },
            (LampInput::EventsOver, LampState::Fading { events, .. }) => {
                matches!(events, EventWatch::Watching(_))
            },
            (LampInput::SetOver, LampState::Setting { watch, .. }) => {
                matches!(watch, SetWatch::Watching { .. })
            },
            (LampInput::Message(_), _) => self.listens(),
            (LampInput::Stopped, LampState::Stopping(_)) => true,
            _ => false,
        }
    }

    /// Takes an input.
    pub fn step(self, input: LampInput) -> (next: LampNext)
        requires
            self.expects(input),
        ensures
            next == self.after(input),
    {
        match (self, input) {
            (LampState::Describing, LampInput::Description(answer)) => go_on(
                check_description(answer),
                LampState::ReadingProps,
                LampAction::GetProps,
            ),
            (LampState::ReadingProps, LampInput::Props(answer)) => go_on(
                check_props(answer),
                LampState::ReadingBrightness,
                LampAction::GetBrightness,
            ),
            (LampState::ReadingBrightness, LampInput::Brightness(answer)) => go_on(
                check_brightness(answer, INITIAL_BRIGHTNESS),
                LampState::Setting { written: None, watch: SetWatch::Watching { told: false } },
                LampAction::SetBrightness(SET_BRIGHTNESS, SET_MILLIS),
            ),
            (LampState::Setting { watch, .. }, LampInput::Written(answer)) => set_next(
                Some(check_written(answer)),
                watch,
            ),
            (LampState::Setting { written, .. }, LampInput::Message(message)) => set_next(
                written,
                check_message(message),
            ),
            (LampState::Setting { written, watch }, LampInput::SetOver) => match watch {
                SetWatch::Watching { told } => set_next(written, SetWatch::TimedOut { told }),
                _ => vstd::pervasive::unreached(),
            },
            (LampState::Rereading, LampInput::Brightness(answer)) => go_on(
                check_brightness(answer, SET_BRIGHTNESS),
                LampState::StartingFade,
                LampAction::StartFade(
                    FadeAction { brightness: FADE_END, duration: FADE_MILLIS },
                ),
            ),
            (LampState::StartingFade, LampInput::Started(answer)) => match check_start(answer) {
                Err(error) => LampNext::Finish(Err(error)),
                Ok(href) => LampNext::Continue(
                    LampState::QueryingFade { href },
                    LampAction::QueryFade,
                ),
            },
            (LampState::QueryingFade { href }, LampInput::Queried(answer)) => go_on(
                check_query(answer),
                LampState::Fading {
                    href,
                    polls: PollWatch::Polling(PolledActionStatus::default()),
                    check: CheckWatch::Waiting,
                    events: EventWatch::Watching(FadeEvents::new()),
                },
                LampAction::WatchFade {
                    period: POLL_MILLIS,
                    check: CHECK_MILLIS,
                    timeout: FADE_TIMEOUT_MILLIS,
                },
            ),
            (LampState::Fading { href, polls, check, events }, LampInput::Polled(action)) => {
                fade_next(href, polls.poll(action), check, events, LampAction::Wait)
            },
            (LampState::Fading { href, polls, check, events }, LampInput::PollsOver) => {
                fade_next(href, polls.expire(), check, events, LampAction::Wait)
            },
            (LampState::Fading { href, polls, events, .. }, LampInput::CheckDue) => {
                fade_next(href, polls, CheckWatch::Reading, events, LampAction::GetBrightness)
            },
            (LampState::Fading { href, polls, events, .. }, LampInput::Brightness(answer)) => {
                let check: CheckWatch = CheckWatch::Done(check_halfway(answer));
                fade_next(href, polls, check, events, LampAction::Wait)
            },
            (LampState::Fading { href, polls, check, events }, LampInput::Message(message)) => {
                fade_next(href, polls, check, events.receive(message), LampAction::Wait)
            },
            (LampState::Fading { href, polls, check, events }, LampInput::EventsOver) => {
                fade_next(href, polls, check, events.expire(), LampAction::Wait)
            },
            (_, LampInput::Message(message)) => intrude(message),
            (LampState::Restoring, LampInput::Written(Err(error))) => LampNext::Finish(
                Err(LampError::Write(error)),
            ),
            (LampState::Restoring, LampInput::Written(Ok(_))) => LampNext::Continue(
                LampState::Stopping(Ok(())),
                LampAction::Stop,
            ),
            (LampState::Stopping(result), LampInput::Stopped) => LampNext::Finish(result),
            _ => vstd::pervasive::unreached(),
        }
    }
}

fn go_on(defect: Option<LampError>, state: LampState, action: LampAction) -> (next: LampNext)
    ensures
        next == guarded(defect, state, action),
{
    match defect {
        Some(error) => LampNext::Finish(Err(error)),
        None => LampNext::Continue(state, action),
    }
}

fn intrude(message: Option<Message>) -> (next: LampNext)
    ensures
        next == intruded(message),
{
    match check_no_incoming_messages::<(), Message>(Race::Received(message)) {
        Ok(()) => vstd::pervasive::unreached(),
        Err(error) => LampNext::Finish(Err(LampError::Incoming(error))),
    }
}

/// Why a lamp or its events failed.
#[derive(Debug)]
pub enum RunError {
    /// The lamp failed its test.
    Active(LampError),
    /// The events failed.
    Events(EventsError),
}

/// The outcome of the test of a lamp as a whole: that of the requests where they
/// failed, and otherwise that of the events.
pub fn conclude(active: Result<(), LampError>, events: Result<(), EventsError>) -> (r: Result<
    (),
    RunError,
>)
    ensures
        r == match (active, events) {
            (Err(error), _) => Err::<(), RunError>(RunError::Active(error)),
            (Ok(()), Err(error)) => Err(RunError::Events(error)),
            (Ok(()), Ok(())) => Ok(()),
        },
{
    match (active, events) {
        (Err(error), _) => Err(RunError::Active(error)),
        (Ok(()), Err(error)) => Err(RunError::Events(error)),
        (Ok(()), Ok(())) => Ok(()),
    }
}

} // verus!
