//! The events of a lamp, from the sources that carry them to the messages that its
//! test waits for.

use vstd::prelude::*;

use crate::tester::lamp::Fade;
use crate::tester::Timestamp;
use crate::text::{join, same_text};
use crate::trusted::{parse_json_u32, parse_rfc3339, source_text};

verus! {

/// What the test of a lamp is told of the events.
#[derive(Clone, Debug, Eq, PartialEq)]
pub enum Message {
    /// No event will come any more.
    Stop,
    /// The lamp is overheated.
    Overheated {
        /// Whether it came from the source for all events.
        global: bool,
        /// The temperature.
        data: Overheated,
        /// When it happened.
        timestamp: Option<Timestamp>,
    },
    /// The brightness has changed.
    Brightness {
        /// Whether it came from the source for all properties.
        global: bool,
        /// The brightness.
        brightness: u32,
        /// When it happened.
        timestamp: Option<Timestamp>,
    },
}

/// A property with its value.
#[derive(Clone, Copy, Debug, Eq, PartialEq)]
pub enum PropertyStatus {
    /// The brightness.
    Brightness(u32),
}

/// An action with what is known of it.
#[derive(Clone, Debug, Eq, PartialEq)]
pub enum ActionStatus {
    /// The fade action.
    Fade(Fade),
}

/// An event with its data.
#[derive(Clone, Debug, Eq, PartialEq)]
pub enum EventStatus {
    /// The lamp is overheated.
    Overheated(Overheated),
}

/// The temperature of an overheated lamp.
#[derive(Clone, Debug, Eq, PartialEq)]
pub struct Overheated(pub u32);

/// An event of a lamp.
#[derive(Clone, Debug, Eq, PartialEq)]
pub struct Event {
    /// What happened.
    pub inner: EventInner,
    /// When it happened.
    pub timestamp: Option<Timestamp>,
}

/// What happened to a lamp.
#[derive(Clone, Debug, Eq, PartialEq)]
pub enum EventInner {
    /// A property has changed.
    Property(PropertyStatus),
    /// An event was raised.
    Event(EventStatus),
}

/// The error of a server-sent event that is none of a lamp.
#[derive(Clone, Copy, Debug, Default, Eq, Hash, PartialEq)]
pub struct InvalidEvent;

/// A server-sent event.
#[derive(Clone, Debug)]
pub struct RawEvent {
    /// The name.
    pub event: String,
    /// The data.
    pub data: String,
    /// The identifier, which holds a timestamp.
    pub id: String,
}

/// The timestamp in an identifier. An identifier need not be there, nor be a
/// timestamp.
pub open spec fn timestamp_of(id: Seq<char>) -> Option<Timestamp> {
    if id.len() == 0 {
        None
    } else {
        match crate::trusted::rfc3339_instant(id) {
            Some((unix_nanos, offset_seconds)) => Some(Timestamp { unix_nanos, offset_seconds }),
            None => None,
        }
    }
}

/// The event under a name, given the number that its data hold.
pub open spec fn event_of(
    name: Seq<char>,
    data: Option<u32>,
    timestamp: Option<Timestamp>,
) -> Result<Event, InvalidEvent> {
    match data {
        Some(data) => if name == "brightness"@ {
            Ok(
                Event {
                    inner: EventInner::Property(PropertyStatus::Brightness(data)),
                    timestamp,
                },
            )
        } else if name == "overheated"@ {
            Ok(
                Event {
                    inner: EventInner::Event(EventStatus::Overheated(Overheated(data))),
                    timestamp,
                },
            )
        } else {
            Err(InvalidEvent)
        },
        None => Err(InvalidEvent),
    }
}

impl Event {
    /// The event under a name, given the number that its data hold.
    pub fn from_parts(name: &str, data: Option<u32>, timestamp: Option<Timestamp>) -> (r: Result<
        Event,
        InvalidEvent,
    >)
        ensures
            r == event_of(name@, data, timestamp),
    {
        proof {
            reveal_strlit("brightness");
            reveal_strlit("overheated");
        }
        match data {
            Some(data) => {
                if same_text(name, "brightness") {
                    Ok(
                        Event {
                            inner: EventInner::Property(PropertyStatus::Brightness(data)),
                            timestamp,
                        },
                    )
                } else if same_text(name, "overheated") {
                    Ok(
                        Event {
                            inner: EventInner::Event(EventStatus::Overheated(Overheated(data))),
                            timestamp,
                        },
                    )
                } else {
                    Err(InvalidEvent)
                }
            },
            None => Err(InvalidEvent),
        }
    }
}

/// The timestamp in an identifier.
pub fn read_timestamp(id: &str) -> (r: Option<Timestamp>)
    ensures
        r == timestamp_of(id@),
{
    if id.is_empty() {
        None
    } else {
        match parse_rfc3339(id) {
            Ok((unix_nanos, offset_seconds)) => Some(Timestamp { unix_nanos, offset_seconds }),
            Err(_) => None,
        }
    }
}

impl TryFrom<&RawEvent> for Event {
    type Error = InvalidEvent;

    fn try_from(event: &RawEvent) -> (r: Result<Self, InvalidEvent>) {
        let timestamp: Option<Timestamp> = read_timestamp(event.id.as_str());
        let data: Option<u32> = match parse_json_u32(event.data.as_str()) {
            Ok(data) => Some(data),
            Err(_) => None,
        };
        Event::from_parts(event.event.as_str(), data, timestamp)
    }
}

impl vstd::std_specs::convert::TryFromSpecImpl<&RawEvent> for Event {
    open spec fn obeys_try_from_spec() -> bool {
        true
    }

    open spec fn try_from_spec(event: &RawEvent) -> Result<Self, InvalidEvent> {
        event_of(event.event@, crate::trusted::json_u32(event.data@), timestamp_of(event.id@))
    }
}

impl TryFrom<RawEvent> for Event {
    type Error = InvalidEvent;

    fn try_from(event: RawEvent) -> (r: Result<Self, InvalidEvent>) {
        Event::try_from(&event)
    }
}

impl vstd::std_specs::convert::TryFromSpecImpl<RawEvent> for Event {
    open spec fn obeys_try_from_spec() -> bool {
        true
    }

    open spec fn try_from_spec(event: RawEvent) -> Result<Self, InvalidEvent> {
        event_of(event.event@, crate::trusted::json_u32(event.data@), timestamp_of(event.id@))
    }
}

/// The sources of events.
#[derive(Clone, Copy, Debug, Hash, PartialEq, Eq, Structural)]
pub enum EventType {
    /// All events.
    Event,
    /// The events of an overheated lamp.
    Overheat,
    /// All properties.
    Property,
    /// The brightness.
    Brightness,
}

impl EventType {
    /// Where the source is found.
    pub open spec fn path(self) -> Seq<char> {
        match self {
            EventType::Event => "events"@,
            EventType::Overheat => "events/overheated"@,
            EventType::Property => "properties/observe"@,
            EventType::Brightness => "properties/brightness/observe"@,
        }
    }

    /// Where the source is found.
    pub fn endpoint(self) -> (r: &'static str)
        ensures
            r@ == self.path(),
    {
        match self {
            EventType::Event => "events",
            EventType::Overheat => "events/overheated",
            EventType::Property => "properties/observe",
            EventType::Brightness => "properties/brightness/observe",
        }
    }

    /// What is said where the source cannot be asked.
    pub open spec fn complaint(self) -> Seq<char> {
        match self {
            EventType::Event => "Unable to create events source for lamp"@,
            EventType::Overheat => "Unable to create overheated events source for lamp"@,
            EventType::Property => "Unable to create properties events source for lamp"@,
            EventType::Brightness => "Unable to create brightness events source for lamp"@,
        }
    }

    /// What is said where the source cannot be asked.
    pub fn failure(self) -> (r: &'static str)
        ensures
            r@ == self.complaint(),
    {
        match self {
            EventType::Event => "Unable to create events source for lamp",
            EventType::Overheat => "Unable to create overheated events source for lamp",
            EventType::Property => "Unable to create properties events source for lamp",
            EventType::Brightness => "Unable to create brightness events source for lamp",
        }
    }
}

/// What a source hands out.
#[derive(Clone, Debug)]
pub enum SourceEvent {
    /// The connection is open.
    Open,
    /// An event.
    Message(RawEvent),
}

/// Why the events of a lamp are refused.
#[derive(Debug)]
pub enum EventsError {
    /// A source failed.
    SourceFailed(reqwest_eventsource::Error),
    /// All sources are at their end.
    SourcesEnded,
    /// An event is none of a lamp.
    InvalidEvent,
    /// An event came from a source that does not carry it.
    InvalidCombination,
    /// Nobody takes the messages any more.
    HandlerGone,
}

impl EventsError {
    /// The text of the error, given that of a source error.
    pub open spec fn described(self, source: Seq<char>) -> Seq<char> {
        match self {
            EventsError::SourceFailed(_) => "events stream closed prematurely: "@ + source,
            EventsError::SourcesEnded => "events stream closed prematurely"@,
            EventsError::InvalidEvent => "invalid lamp event"@,
            EventsError::InvalidCombination => "invalid lamp event type/message combination"@,
            EventsError::HandlerGone => "lamp handler channel closed unexpectedly"@,
        }
    }

    /// The text of the error, given that of a source error.
    pub fn describe(&self, source: &str) -> (r: String)
        ensures
            r@ == self.described(source@),
    {
        match self {
            EventsError::SourceFailed(_) => join("events stream closed prematurely: ", source),
            EventsError::SourcesEnded => "events stream closed prematurely".to_owned(),
            EventsError::InvalidEvent => "invalid lamp event".to_owned(),
            EventsError::InvalidCombination => {
                "invalid lamp event type/message combination".to_owned()
            },
            EventsError::HandlerGone => "lamp handler channel closed unexpectedly".to_owned(),
        }
    }

    /// The text of the error.
    pub fn text(&self) -> (r: String)
        ensures
            exists|source: Seq<char>|
                r@ == #[trigger] self.described(source) && match *self {
                    EventsError::SourceFailed(error) => crate::trusted::shows_source(error, source),
                    _ => source == ""@,
                },
    {
        match self {
            EventsError::SourceFailed(error) => {
                let shown: String = source_text(error);
                self.describe(shown.as_str())
            },
            _ => self.describe(""),
        }
    }
}

/// The message of an event, if the source carries such events.
pub open spec fn routed(source: EventType, event: Event) -> Option<Message> {
    match (source, event.inner) {
        (
            EventType::Property | EventType::Brightness,
            EventInner::Property(PropertyStatus::Brightness(brightness)),
        ) => Some(
            Message::Brightness {
                global: source == EventType::Property,
                brightness,
                timestamp: event.timestamp,
            },
        ),
        (
            EventType::Event | EventType::Overheat,
            EventInner::Event(EventStatus::Overheated(data)),
        ) => Some(
            Message::Overheated {
                global: source == EventType::Event,
                data,
                timestamp: event.timestamp,
            },
        ),
        _ => None,
    }
}

/// The message of an event, if the source carries such events.
pub fn route(source: EventType, event: Event) -> (r: Option<Message>)
    ensures
        r == routed(source, event),
{
    let timestamp: Option<Timestamp> = event.timestamp;
    match (source, event.inner) {
        (
            EventType::Property | EventType::Brightness,
            EventInner::Property(PropertyStatus::Brightness(brightness)),
        ) => Some(
            Message::Brightness {
                global: matches!(source, EventType::Property),
                brightness,
                timestamp,
            },
        ),
        (
            EventType::Event | EventType::Overheat,
            EventInner::Event(EventStatus::Overheated(data)),
        ) => Some(
            Message::Overheated { global: matches!(source, EventType::Event), data, timestamp },
        ),
        _ => None,
    }
}

/// How far the forwarding of events has come.
#[derive(Debug)]
pub enum EventsState {
    /// It waits for a source.
    Listening,
    /// It sends a message.
    Forwarding,
    /// It sends `Stop`, then it fails.
    Closing(EventsError),
}

/// What can happen to the forwarding of events.
#[derive(Debug)]
pub enum EventsInput {
    /// The sources handed something out or, where there is none, are at their end.
    Source(Option<Result<(EventType, SourceEvent), reqwest_eventsource::Error>>),
    /// A message was sent, or could not be.
    Sent(bool),
    /// The test of the lamp is over.
    Stop,
}

/// What the forwarding of events does next.
#[derive(Debug)]
pub enum EventsNext {
    /// It waits for a source.
    Listen,
    /// It sends a message.
    Send(Message, EventsState),
    /// It is over.
    Finish(Result<(), EventsError>),
}

/// What is done with a lamp event from a source.
pub open spec fn forwarded(source: EventType, event: Result<Event, InvalidEvent>) -> EventsNext {
    match event {
        Err(_) => EventsNext::Finish(Err(EventsError::InvalidEvent)),
        Ok(event) => match routed(source, event) {
            Some(message) => EventsNext::Send(message, EventsState::Forwarding),
            None => EventsNext::Finish(Err(EventsError::InvalidCombination)),
        },
    }
}

/// What is done with what a source handed out.
pub open spec fn handled(
    result: Result<(EventType, SourceEvent), reqwest_eventsource::Error>,
) -> EventsNext {
    match result {
        Err(error) => EventsNext::Send(
            Message::Stop,
            EventsState::Closing(EventsError::SourceFailed(error)),
        ),
        Ok((_, SourceEvent::Open)) => EventsNext::Listen,
        Ok((source, SourceEvent::Message(raw))) => forwarded(
            source,
            event_of(raw.event@, crate::trusted::json_u32(raw.data@), timestamp_of(raw.id@)),
        ),
    }
}

/// Decides what is done with a lamp event from a source.
pub fn forward(source: EventType, event: Result<Event, InvalidEvent>) -> (r: EventsNext)
    ensures
        r == forwarded(source, event),
{
    match event {
        Err(_) => EventsNext::Finish(Err(EventsError::InvalidEvent)),
        Ok(event) => match route(source, event) {
            Some(message) => EventsNext::Send(message, EventsState::Forwarding),
            None => EventsNext::Finish(Err(EventsError::InvalidCombination)),
        },
    }
}

/// Decides what is done with what a source handed out.
pub fn handle_lamp_event_result(
    result: Result<(EventType, SourceEvent), reqwest_eventsource::Error>,
) -> (r: EventsNext)
    ensures
        r == handled(result),
{
    match result {
        Err(error) => EventsNext::Send(
            Message::Stop,
            EventsState::Closing(EventsError::SourceFailed(error)),
        ),
        Ok((_, SourceEvent::Open)) => EventsNext::Listen,
        Ok((source, SourceEvent::Message(raw))) => forward(source, Event::try_from(raw)),
    }
}

impl EventsState {
    /// The end of the test ends the forwarding at once, unless it fails because all
    /// sources are at their end.
    pub open spec fn heeds_stop(self) -> bool {
        !(self matches EventsState::Closing(EventsError::SourcesEnded))
    }

    /// The input can happen in this state.
    pub open spec fn expects(self, input: EventsInput) -> bool {
        match input {
            EventsInput::Source(_) => self is Listening,
            EventsInput::Sent(_) => !(self is Listening),
            EventsInput::Stop => self.heeds_stop(),
        }
    }

    /// What is done after an input.
    pub open spec fn after(self, input: EventsInput) -> EventsNext {
        match (self, input) {
            (_, EventsInput::Stop) => EventsNext::Finish(Ok(())),
            (_, EventsInput::Source(None)) => EventsNext::Send(
                Message::Stop,
                EventsState::Closing(EventsError::SourcesEnded),
            ),
            (_, EventsInput::Source(Some(result))) => handled(result),
            (EventsState::Closing(error), EventsInput::Sent(_)) => EventsNext::Finish(Err(error)),
            (_, EventsInput::Sent(true)) => EventsNext::Listen,
            (_, EventsInput::Sent(false)) => EventsNext::Finish(Err(EventsError::HandlerGone)),
        }
    }

    /// Whether the end of the test ends the forwarding at once.
    pub fn can_stop(&self) -> (r: bool)
        ensures
            r == self.heeds_stop(),
    {
        !matches!(self, EventsState::Closing(EventsError::SourcesEnded))
    }

    /// Whether the input can happen in this state.
    pub fn accepts(&self, input: &EventsInput) -> (r: bool)
        ensures
            r == self.expects(*input),
    {
        match input {
            EventsInput::Source(_) => matches!(self, EventsState::Listening),
            EventsInput::Sent(_) => !matches!(self, EventsState::Listening),
            EventsInput::Stop => self.can_stop(),
        }
    }

    /// Takes an input.
    pub fn step(self, input: EventsInput) -> (next: EventsNext)
        requires
            self.expects(input),
        ensures
            next == self.after(input),
    {
        match (self, input) {
            (_, EventsInput::Stop) => EventsNext::Finish(Ok(())),
            (_, EventsInput::Source(None)) => EventsNext::Send(
                Message::Stop,
                EventsState::Closing(EventsError::SourcesEnded),
            ),
            (_, EventsInput::Source(Some(result))) => handle_lamp_event_result(result),
            (EventsState::Closing(error), EventsInput::Sent(_)) => EventsNext::Finish(Err(error)),
            (_, EventsInput::Sent(true)) => EventsNext::Listen,
            (_, EventsInput::Sent(false)) => EventsNext::Finish(Err(EventsError::HandlerGone)),
        }
    }
}

/// The forwarding of events ends well exactly when the test of the lamp is over.
pub proof fn ends_well_exactly_when_stopped(state: EventsState, input: EventsInput)
    requires
        state.expects(input),
    ensures
        state.after(input) == EventsNext::Finish(Ok(())) <==> input is Stop,
{
}

/// When the sources are at their end or one of them fails, the test of the lamp is
/// told to stop and then, whether it heard of it or not, the forwarding fails.
pub proof fn lost_sources_stop_the_test(
    lost: Option<Result<(EventType, SourceEvent), reqwest_eventsource::Error>>,
    sent: bool,
)
    requires
        lost is None || lost->0 is Err,
    ensures
        EventsState::Listening.after(EventsInput::Source(lost)) matches EventsNext::Send(
            message,
            closing,
        ) && message == Message::Stop && closing.after(EventsInput::Sent(sent))
            == EventsNext::Finish(
            Err(
                match lost {
                    Some(Err(error)) => EventsError::SourceFailed(error),
                    _ => EventsError::SourcesEnded,
                },
            ),
        ),
{
}

/// What happened, and when, reaches the test of the lamp unchanged, and only from the
/// sources that carry it; one of the two is marked as global.
pub proof fn events_are_forwarded_unchanged(source: EventType, event: Event)
    ensures
        forwarded(source, Ok(event)) == match event.inner {
            EventInner::Property(PropertyStatus::Brightness(brightness)) => match source {
                EventType::Property => EventsNext::Send(
                    Message::Brightness { global: true, brightness, timestamp: event.timestamp },
                    EventsState::Forwarding,
                ),
                EventType::Brightness => EventsNext::Send(
                    Message::Brightness { global: false, brightness, timestamp: event.timestamp },
                    EventsState::Forwarding,
                ),
                _ => EventsNext::Finish(Err(EventsError::InvalidCombination)),
            },
            EventInner::Event(EventStatus::Overheated(data)) => match source {
                EventType::Event => EventsNext::Send(
                    Message::Overheated { global: true, data, timestamp: event.timestamp },
                    EventsState::Forwarding,
                ),
                EventType::Overheat => EventsNext::Send(
                    Message::Overheated { global: false, data, timestamp: event.timestamp },
                    EventsState::Forwarding,
                ),
                _ => EventsNext::Finish(Err(EventsError::InvalidCombination)),
            },
        },
{
}

/// One message is sent at a time: while it is sent nothing is taken from the sources,
/// and more is taken only once it was sent.
pub proof fn one_message_is_sent_at_a_time(state: EventsState, input: EventsInput)
    requires
        state.expects(input),
    ensures
        state.after(input) matches EventsNext::Send(_, next) ==> {
            &&& state is Listening
            &&& input is Source
            &&& !(next is Listening)
        },
        state.after(input) is Listen ==> {
            ||| state is Listening && (input matches EventsInput::Source(Some(Ok((_, event))))
                && event is Open)
            ||| state is Forwarding && input == EventsInput::Sent(true)
        },
{
}

/// An event is one of a lamp exactly when its data hold a number and it is named
/// `brightness` or `overheated`. The number, whatever it is, reaches the event, and so does
/// the time.
pub proof fn numbers_reach_the_event(
    name: Seq<char>,
    n: u32,
    timestamp: Option<Timestamp>,
)
    ensures
        event_of("brightness"@, Some(n), timestamp) matches Ok(event) && event.inner
            == EventInner::Property(PropertyStatus::Brightness(n)) && event.timestamp == timestamp,
        event_of("overheated"@, Some(n), timestamp) matches Ok(event) && event.inner
            == EventInner::Event(EventStatus::Overheated(Overheated(n))) && event.timestamp
            == timestamp,
        event_of(name, Some(n), timestamp) is Ok <==> name == "brightness"@ || name
            == "overheated"@,
        event_of(name, None, timestamp) is Err,
{
    reveal_strlit("brightness");
    reveal_strlit("overheated");
    assert("brightness"@[0] != "overheated"@[0]);
}

/// An identifier tells a time exactly when it is an RFC 3339 text, and then tells that
/// instant at that offset; an empty one tells none.
pub proof fn identifiers_tell_the_time(id: Seq<char>, unix_nanos: i128, offset_seconds: i32)
    ensures
        (timestamp_of(id) matches Some(time) && time.unix_nanos == unix_nanos
            && time.offset_seconds == offset_seconds) <==> id.len() > 0
            && crate::trusted::rfc3339_instant(id) == Some((unix_nanos, offset_seconds)),
        timestamp_of(id) is Some <==> id.len() > 0 && crate::trusted::rfc3339_instant(id) is Some,
{
}

/// The data of a server-sent event that hold a number in decimal reach the test of the lamp
/// as that number, with the time in the identifier: a brightness from the two sources that
/// carry it, a temperature from the two others.
pub proof fn data_reach_the_test(source: EventType, raw: RawEvent, n: u32)
    requires
        raw.data@ == crate::text::decimal(n as nat),
        raw.event@ == "brightness"@ || raw.event@ == "overheated"@,
    ensures
        ({
            let next = handled(Ok((source, SourceEvent::Message(raw))));
            let all = source is Property || source is Event;
            if (raw.event@ == "brightness"@) == (source is Property || source is Brightness) {
                &&& next matches EventsNext::Send(message, state)
                &&& state is Forwarding
                &&& raw.event@ == "brightness"@ ==> message == (Message::Brightness {
                    global: all,
                    brightness: n,
                    timestamp: timestamp_of(raw.id@),
                })
                &&& raw.event@ == "overheated"@ ==> message == (Message::Overheated {
                    global: all,
                    data: Overheated(n),
                    timestamp: timestamp_of(raw.id@),
                })
            } else {
                next == EventsNext::Finish(Err(EventsError::InvalidCombination))
            }
        }),
{
    crate::text::decimal_is_read_back(n);
    reveal_strlit("brightness");
    reveal_strlit("overheated");
    assert("brightness"@[0] != "overheated"@[0]);
}

/// An event whose data hold no number, or that has another name, ends the forwarding, and an
/// opened connection is passed over. A source that failed is told as it failed.
pub proof fn other_events_are_refused(
    source: EventType,
    raw: RawEvent,
    error: reqwest_eventsource::Error,
)
    ensures
        handled(Ok((source, SourceEvent::Message(raw)))) == EventsNext::Finish(
            Err(EventsError::InvalidEvent),
        ) <==> crate::trusted::json_u32(raw.data@) is None || (raw.event@ != "brightness"@
            && raw.event@ != "overheated"@),
        handled(Ok((source, SourceEvent::Open))) is Listen,
        handled(Err(error)) == EventsNext::Send(
            Message::Stop,
            EventsState::Closing(EventsError::SourceFailed(error)),
        ),
{
}

/// After a message that was sent the sources are waited for again, and after one that could
/// not be sent the forwarding fails for that, unless it fails anyway.
pub proof fn sent_messages_are_followed_up(state: EventsState, sent: bool)
    requires
        !(state is Listening),
    ensures
        match state {
            EventsState::Closing(error) => state.after(EventsInput::Sent(sent))
                == EventsNext::Finish(Err(error)),
            _ => {
                &&& state.after(EventsInput::Sent(sent)) is Listen <==> sent
                &&& state.after(EventsInput::Sent(sent)) == EventsNext::Finish(
                    Err(EventsError::HandlerGone),
                ) <==> !sent
            },
        },
{
}

/// The sources are waited for while nothing is sent, and the end of a sending while
/// something is. The end of the test is heeded unless all sources are at their end.
pub proof fn forwarding_expects_what_it_waits_for(state: EventsState, input: EventsInput)
    ensures
        state is Listening ==> (state.expects(input) <==> !(input is Sent)),
        state is Forwarding ==> (state.expects(input) <==> !(input is Source)),
        state matches EventsState::Closing(error) ==> (state.expects(input) <==> input is Sent || (
        input is Stop && !(error is SourcesEnded))),
{
}

/// Every source has its own endpoint, and those of one kind of event lie below the one for
/// all of that kind.
pub proof fn sources_have_their_endpoints(a: EventType, b: EventType)
    ensures
        a.path() == b.path() ==> a == b,
        EventType::Event.path() == "events"@,
        EventType::Overheat.path() == EventType::Event.path() + "/overheated"@,
        EventType::Property.path() == "properties"@ + "/observe"@,
        EventType::Brightness.path() == "properties"@ + "/brightness"@ + "/observe"@,
{
    reveal_strlit("events");
    reveal_strlit("events/overheated");
    reveal_strlit("properties/observe");
    reveal_strlit("properties/brightness/observe");
    reveal_strlit("/overheated");
    reveal_strlit("properties");
    reveal_strlit("/observe");
    reveal_strlit("/brightness");
    assert(EventType::Overheat.path() =~= EventType::Event.path() + "/overheated"@);
    assert(EventType::Property.path() =~= "properties"@ + "/observe"@);
    assert(EventType::Brightness.path() =~= "properties"@ + "/brightness"@ + "/observe"@);
}

} // verus!
