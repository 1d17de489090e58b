//! What is watched while a lamp fades: the action, the brightness half-way and the
//! events.

use vstd::prelude::*;

use crate::lamp::Brightness;
use crate::tester::lamp::{
    handle_next_polled_action, Fade, Message, Overheated, PolledActionError, PolledActionStatus,
};
use crate::tester::{ActionResponse, OK};

verus! {

/// The brightness from which a lamp is faded.
pub const FADE_START: u32 = 25;

/// The brightness to which a lamp is faded.
pub const FADE_END: u32 = 100;

/// How long a lamp fades, in milliseconds.
pub const FADE_MILLIS: u32 = 2000;

/// The temperature above which a lamp is overheated.
pub const SAFE_TEMPERATURE: u32 = 100;

/// When, from the start of the fade on, the brightness is read, in milliseconds.
pub const CHECK_MILLIS: u64 = 1000;

/// How much earlier or later the brightness may be read, in milliseconds.
pub const CHECK_TOLERANCE_MILLIS: i64 = 100;

/// What went wrong while a lamp faded.
#[derive(Debug)]
pub enum WatchError {
    /// An answer to a poll of the action is refused, given what was known of it.
    Poll(PolledActionStatus, PolledActionError),
    /// The action has not completed in time.
    NotFinished,
    /// The answer to a read of the brightness has another status than `OK`.
    OkStatus(u16),
    /// The brightness could not be read.
    Reqwest(reqwest::Error),
    /// The brightness is not that of a fading lamp.
    Brightness(Brightness),
    /// An overheated lamp tells a safe temperature, or not when it was overheated.
    OverheatedEvent,
    /// An event tells a brightness that the lamp cannot have, or not when it had it.
    BrightnessEvent,
    /// No events can come any more.
    HandlerClosed,
}

/// The brightness so many milliseconds after the start of the fade: it grows evenly
/// and is rounded down.
pub open spec fn brightness_at(millis: int) -> int {
    (FADE_END - FADE_START) * millis / FADE_MILLIS as int + FADE_START
}

/// The brightness so many milliseconds after the start of the fade.
pub fn interpolate_brightness_at_t(millis: i64) -> (r: Brightness)
    requires
        0 <= millis <= i64::MAX / 75,
    ensures
        r == brightness_at(millis as int),
{
    let span: i64 = FADE_END as i64 - FADE_START as i64;
    assert(0 <= span * millis <= i64::MAX) by (nonlinear_arith)
        requires
            span == 75,
            0 <= millis <= i64::MAX / 75,
    ;
    span * millis / FADE_MILLIS as i64 + FADE_START as i64
}

/// The brightness is that of a lamp that fades since about a second.
pub open spec fn halfway(brightness: int) -> bool {
    &&& brightness_at(CHECK_MILLIS - CHECK_TOLERANCE_MILLIS) <= brightness
    &&& brightness <= brightness_at(CHECK_MILLIS + CHECK_TOLERANCE_MILLIS)
}

/// The judgement of the brightness read after about a second.
pub open spec fn check_of(read: Result<(u16, Brightness), reqwest::Error>) -> Result<
    (),
    WatchError,
> {
    match read {
        Err(error) => Err(WatchError::Reqwest(error)),
        Ok((status, brightness)) => if status != OK {
            Err(WatchError::OkStatus(status))
        } else if !halfway(brightness as int) {
            Err(WatchError::Brightness(brightness))
        } else {
            Ok(())
        },
    }
}

/// Judges the brightness read after about a second.
pub fn check_halfway(read: Result<(u16, Brightness), reqwest::Error>) -> (r: Result<
    (),
    WatchError,
>)
    ensures
        r == check_of(read),
{
    match read {
        Err(error) => Err(WatchError::Reqwest(error)),
        Ok((status, brightness)) => {
            let lowest: Brightness = interpolate_brightness_at_t(
                CHECK_MILLIS as i64 - CHECK_TOLERANCE_MILLIS,
            );
            let highest: Brightness = interpolate_brightness_at_t(
                CHECK_MILLIS as i64 + CHECK_TOLERANCE_MILLIS,
            );
            if status != OK {
                Err(WatchError::OkStatus(status))
            } else if brightness < lowest || highest < brightness {
                Err(WatchError::Brightness(brightness))
            } else {
                Ok(())
            }
        },
    }
}

/// What is known of a fade action that is polled.
#[derive(Debug)]
pub enum PollWatch {
    /// It is polled.
    Polling(PolledActionStatus),
    /// It is no longer polled.
    Done(Result<(), WatchError>),
}

impl PollWatch {
    /// What is known after a poll.
    pub open spec fn polled(
        self,
        action: Option<Result<(u16, ActionResponse<Fade>), reqwest::Error>>,
    ) -> Self {
        match self {
            PollWatch::Polling(status) => match status.after_poll(action) {
                Ok(next) => PollWatch::Polling(next),
                Err(error) => PollWatch::Done(Err(WatchError::Poll(status, error))),
            },
            _ => self,
        }
    }

    /// What is known once the time is over.
    pub open spec fn timed_out(self) -> Self {
        match self {
            PollWatch::Polling(PolledActionStatus::Completed { .. }) => PollWatch::Done(Ok(())),
            PollWatch::Polling(_) => PollWatch::Done(Err(WatchError::NotFinished)),
            _ => self,
        }
    }

    /// Takes the outcome of a poll.
    pub fn poll(
        self,
        action: Option<Result<(u16, ActionResponse<Fade>), reqwest::Error>>,
    ) -> (r: Self)
        ensures
            r == self.polled(action),
    {
        match self {
            PollWatch::Polling(status) => {
                let mut status: PolledActionStatus = status;
                match handle_next_polled_action(action, &mut status) {
                    Ok(()) => PollWatch::Polling(status),
                    Err(error) => PollWatch::Done(Err(WatchError::Poll(status, error))),
                }
            },
            PollWatch::Done(result) => PollWatch::Done(result),
        }
    }

    /// Takes note that the time is over.
    pub fn expire(self) -> (r: Self)
        ensures
            r == self.timed_out(),
    {
        match self {
            PollWatch::Polling(PolledActionStatus::Completed { .. }) => PollWatch::Done(Ok(())),
            PollWatch::Polling(_) => PollWatch::Done(Err(WatchError::NotFinished)),
            PollWatch::Done(result) => PollWatch::Done(result),
        }
    }
}

/// What the events have told of a fading lamp.
#[derive(Clone, Copy, Debug, PartialEq, Eq, Structural)]
pub struct FadeEvents {
    /// It is overheated, by the source for that event.
    pub overheated: bool,
    /// It is overheated, by the source for all events.
    pub overheated_global: bool,
    /// The last brightness, by the source for the brightness.
    pub last_brightness: Option<u32>,
    /// The last brightness, by the source for all properties.
    pub last_global_brightness: Option<u32>,
}

/// What the events told of a fading lamp, and whether more are waited for.
#[derive(Debug)]
pub enum EventWatch {
    /// More events are waited for.
    Watching(FadeEvents),
    /// No more events are waited for.
    Done(Result<(), WatchError>),
    /// Events were missing when the time was over.
    TimedOut,
}

/// What an event of a fading lamp gets wrong.
pub open spec fn event_defect(message: Option<Message>) -> Option<WatchError> {
    match message {
        Some(Message::Overheated { data: Overheated(data), timestamp, .. }) => if data
            <= SAFE_TEMPERATURE || timestamp is None {
            Some(WatchError::OverheatedEvent)
        } else {
            None
        },
        Some(Message::Brightness { brightness, timestamp, .. }) => if !(FADE_START <= brightness
            <= FADE_END) || timestamp is None {
            Some(WatchError::BrightnessEvent)
        } else {
            None
        },
        _ => Some(WatchError::HandlerClosed),
    }
}

impl FadeEvents {
    /// Nothing was told.
    pub open spec fn nothing() -> Self {
        FadeEvents {
            overheated: false,
            overheated_global: false,
            last_brightness: None,
            last_global_brightness: None,
        }
    }

    /// What is told with one more event.
    pub open spec fn with(self, message: Message) -> Self {
        match message {
            Message::Overheated { global, .. } => FadeEvents {
                overheated: self.overheated || !global,
                overheated_global: self.overheated_global || global,
                ..self
            },
            Message::Brightness { global, brightness, .. } => if global {
                FadeEvents { last_global_brightness: Some(brightness), ..self }
            } else {
                FadeEvents { last_brightness: Some(brightness), ..self }
            },
            Message::Stop => self,
        }
    }

    /// Both sources told that it is overheated, and both last told the brightness at
    /// the end of the fade.
    pub open spec fn complete(self) -> bool {
        &&& self.overheated
        &&& self.overheated_global
        &&& self.last_brightness == Some(FADE_END)
        &&& self.last_global_brightness == Some(FADE_END)
    }

    /// Starts with nothing told.
    pub fn new() -> (r: Self)
        ensures
            r == FadeEvents::nothing(),
    {
        FadeEvents {
            overheated: false,
            overheated_global: false,
            last_brightness: None,
            last_global_brightness: None,
        }
    }

    /// Whether all that is waited for was told.
    pub fn is_complete(&self) -> (r: bool)
        ensures
            r == self.complete(),
    {
        self.overheated && self.overheated_global && self.last_brightness == Some(FADE_END)
            && self.last_global_brightness == Some(FADE_END)
    }
}

impl EventWatch {
    /// What is known after a message or, where there is none, the end of the channel.
    pub open spec fn received(self, message: Option<Message>) -> Self {
        match self {
            EventWatch::Watching(events) => match event_defect(message) {
                Some(error) => EventWatch::Done(Err(error)),
                None => if events.with(message->0).complete() {
                    EventWatch::Done(Ok(()))
                } else {
                    EventWatch::Watching(events.with(message->0))
                },
            },
            _ => self,
        }
    }

    /// What is known once the time is over.
    pub open spec fn timed_out(self) -> Self {
        match self {
            EventWatch::Watching(_) => EventWatch::TimedOut,
            _ => self,
        }
    }

    /// Takes a message or, where there is none, the end of the channel.
    pub fn receive(self, message: Option<Message>) -> (r: Self)
        ensures
            r == self.received(message),
    {
        let mut events: FadeEvents = match self {
            EventWatch::Watching(events) => events,
            done => {
                return done;
            },
        };
        match message {
            Some(Message::Overheated { global, data: Overheated(data), timestamp }) => {
                if data <= SAFE_TEMPERATURE || timestamp.is_none() {
                    return EventWatch::Done(Err(WatchError::OverheatedEvent));
                }
                if global {
                    events.overheated_global = true;
                } else {
                    events.overheated = true;
                }
            },
            Some(Message::Brightness { global, brightness, timestamp }) => {
                if brightness < FADE_START || FADE_END < brightness || timestamp.is_none() {
                    return EventWatch::Done(Err(WatchError::BrightnessEvent));
                }
                if global {
                    events.last_global_brightness = Some(brightness);
                } else {
                    events.last_brightness = Some(brightness);
                }
            },
            _ => {
                return EventWatch::Done(Err(WatchError::HandlerClosed));
            },
        }
        if events.is_complete() {
            EventWatch::Done(Ok(()))
        } else {
            EventWatch::Watching(events)
        }
    }

    /// Takes note that the time is over.
    pub fn expire(self) -> (r: Self)
        ensures
            r == self.timed_out(),
    {
        match self {
            EventWatch::Watching(_) => EventWatch::TimedOut,
            done => done,
        }
    }
}

} // verus!
