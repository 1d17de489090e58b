//! The test of a lamp.

pub mod action;
pub mod active;
pub mod answer_laws;
pub mod event;
pub mod laws;
pub mod message;
pub mod run;
pub mod sources;
pub mod watch;
pub mod wording_laws;

pub use action::{
    handle_next_polled_action, Fade, PolledActionError, PolledActionStatus, TransitionError,
};
pub use active::{read_location, FadeAction, LampError, Location, Props};
pub use event::{
    handle_lamp_event_result, read_timestamp, ActionStatus, Event, EventInner, EventStatus,
    EventType, EventsError, EventsInput, EventsNext, EventsState, InvalidEvent, Message,
    Overheated, PropertyStatus, RawEvent, SourceEvent,
};
pub use run::{
    conclude, CheckWatch, LampAction, LampInput, LampNext, LampState, RunError, SetWatch,
};
pub use sources::{is_terminated, PollRound, RoundStep, SourcePoll};
pub use watch::{EventWatch, FadeEvents, PollWatch, WatchError};
