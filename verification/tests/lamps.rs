use wot_test::json::{JsonNumber, JsonValue};
use wot_test::lamp::description;
use wot_test::td::{CowStr, NameMap, ThingDescription};
use wot_test::tester::lamp::event::{forward, read_timestamp, route};
use wot_test::tester::lamp::watch::{check_halfway, interpolate_brightness_at_t};
use wot_test::tester::lamp::{
    conclude, handle_lamp_event_result, handle_next_polled_action, is_terminated, read_location,
    ActionStatus, Event, EventInner, EventStatus, EventType, EventWatch, EventsError,
    EventsInput, EventsNext, EventsState, Fade, FadeAction, FadeEvents, InvalidEvent, LampAction,
    LampError, LampInput, LampNext, LampState, Location, Message, Overheated, PollRound,
    PollWatch, PolledActionError, PolledActionStatus, PropertyStatus, Props, RawEvent, RoundStep,
    RunError, SourceEvent, SourcePoll, TransitionError, WatchError,
};
use wot_test::tester::{
    eq_opt_http_api_problem, ActionResponse, ActionResponseStatus, IncomingMessageError, IntoFutureError, Method,
    Problem, Timestamp,
};

fn transport_error() -> reqwest::Error {
    reqwest::Client::new().get("no url").build().unwrap_err()
}

fn at(unix_nanos: i128) -> Option<Timestamp> {
    Some(Timestamp { unix_nanos, offset_seconds: 0 })
}

fn raw(event: &str, data: &str, id: &str) -> RawEvent {
    RawEvent { event: event.to_string(), data: data.to_string(), id: id.to_string() }
}

fn brightness_event(brightness: u32) -> Event {
    Event {
        inner: EventInner::Property(PropertyStatus::Brightness(brightness)),
        timestamp: at(1),
    }
}

fn overheated_event(data: u32) -> Event {
    Event {
        inner: EventInner::Event(EventStatus::Overheated(Overheated(data))),
        timestamp: at(1),
    }
}

#[test]
fn timestamps_are_read_from_identifiers() {
    assert_eq!(read_timestamp(""), None);
    assert_eq!(read_timestamp("7"), None);
    assert_eq!(read_timestamp("1970-01-01T00:00:01Z"), at(1_000_000_000));
    assert_eq!(read_timestamp("1970-01-01T01:00:00.000000001+01:00"), at(1));
    assert_eq!(read_timestamp("1969-12-31T23:59:59Z"), at(-1_000_000_000));
    assert_eq!(
        read_timestamp("2023-01-01T12:00:00+02:00"),
        read_timestamp("2023-01-01T10:00:00Z")
    );
    let offset = |id| read_timestamp(id).unwrap().offset_seconds;
    assert_eq!(offset("2023-01-01T10:00:00Z"), 0);
    assert_eq!(offset("2023-01-01T12:00:00+02:00"), 7200);
    assert_eq!(offset("2023-01-01T06:30:00-03:30"), -12600);
}

#[test]
fn server_sent_events_are_read() {
    let read = |event, data, id| Event::try_from(&raw(event, data, id));
    assert_eq!(
        read("brightness", "25", "1970-01-01T00:00:00.000000001Z"),
        Ok(brightness_event(25))
    );
    assert_eq!(
        read("overheated", " 101 ", "1970-01-01T00:00:00.000000001Z"),
        Ok(overheated_event(101))
    );
    assert_eq!(read("brightness", "25", ""), Ok(Event { timestamp: None, ..brightness_event(25) }));
    assert_eq!(read("brightness", "25", "x"), Ok(Event { timestamp: None, ..brightness_event(25) }));
    assert_eq!(read("brightness", "-1", ""), Err(InvalidEvent));
    assert_eq!(read("brightness", "4294967295", "").is_ok(), true);
    assert_eq!(read("brightness", "4294967296", ""), Err(InvalidEvent));
    assert_eq!(read("brightness", "25.0", ""), Err(InvalidEvent));
    assert_eq!(read("overheated", "hot", ""), Err(InvalidEvent));
    assert_eq!(read("brightness", "\t\n25\r ", "").is_ok(), true);
    assert_eq!(read("brightness", "0", "").is_ok(), true);
    for data in ["", " ", "025", "00", "-0", "+25", "2 5", "25e0", "1e2", "\u{a0}25", "25,", "\"25\""] {
        assert_eq!(read("brightness", data, ""), Err(InvalidEvent), "{data}");
    }
    assert_eq!(read("on", "25", ""), Err(InvalidEvent));
    assert_eq!(read("", "25", ""), Err(InvalidEvent));
    assert_eq!(
        Event::try_from(raw("overheated", "1", "")),
        Event::try_from(&raw("overheated", "1", ""))
    );
}

#[test]
fn events_are_made_from_their_parts() {
    assert_eq!(Event::from_parts("brightness", Some(25), at(1)), Ok(brightness_event(25)));
    assert_eq!(Event::from_parts("overheated", Some(101), at(1)), Ok(overheated_event(101)));
    assert_eq!(Event::from_parts("Brightness", Some(25), at(1)), Err(InvalidEvent));
    assert_eq!(Event::from_parts("brightness", None, at(1)), Err(InvalidEvent));
}

#[test]
fn each_source_has_its_endpoint() {
    assert_eq!(EventType::Event.endpoint(), "events");
    assert_eq!(EventType::Overheat.endpoint(), "events/overheated");
    assert_eq!(EventType::Property.endpoint(), "properties/observe");
    assert_eq!(EventType::Brightness.endpoint(), "properties/brightness/observe");
    assert_eq!(EventType::Event.failure(), "Unable to create events source for lamp");
    assert_eq!(EventType::Overheat.failure(), "Unable to create overheated events source for lamp");
    assert_eq!(EventType::Property.failure(), "Unable to create properties events source for lamp");
    assert_eq!(EventType::Brightness.failure(), "Unable to create brightness events source for lamp");
}

#[test]
fn events_are_routed_by_their_source() {
    let bright = |global| Some(Message::Brightness { global, brightness: 25, timestamp: at(1) });
    let hot = |global| Some(Message::Overheated { global, data: Overheated(101), timestamp: at(1) });
    assert_eq!(route(EventType::Property, brightness_event(25)), bright(true));
    assert_eq!(route(EventType::Brightness, brightness_event(25)), bright(false));
    assert_eq!(route(EventType::Event, brightness_event(25)), None);
    assert_eq!(route(EventType::Overheat, brightness_event(25)), None);
    assert_eq!(route(EventType::Event, overheated_event(101)), hot(true));
    assert_eq!(route(EventType::Overheat, overheated_event(101)), hot(false));
    assert_eq!(route(EventType::Property, overheated_event(101)), None);
    assert_eq!(route(EventType::Brightness, overheated_event(101)), None);
}

#[test]
fn what_a_source_hands_out_is_forwarded_or_refused() {
    let message = |source, event, data| {
        handle_lamp_event_result(Ok((source, SourceEvent::Message(raw(event, data, "")))))
    };
    assert!(matches!(
        handle_lamp_event_result(Ok((EventType::Event, SourceEvent::Open))),
        EventsNext::Listen
    ));
    assert!(matches!(
        message(EventType::Property, "brightness", "25"),
        EventsNext::Send(
            Message::Brightness { global: true, brightness: 25, timestamp: None },
            EventsState::Forwarding
        )
    ));
    assert!(matches!(
        message(EventType::Event, "brightness", "25"),
        EventsNext::Finish(Err(EventsError::InvalidCombination))
    ));
    assert!(matches!(
        message(EventType::Event, "overheated", "x"),
        EventsNext::Finish(Err(EventsError::InvalidEvent))
    ));
    assert!(matches!(
        handle_lamp_event_result(Err(reqwest_eventsource::Error::StreamEnded)),
        EventsNext::Send(Message::Stop, EventsState::Closing(EventsError::SourceFailed(_)))
    ));
    assert!(matches!(
        forward(EventType::Event, Err(InvalidEvent)),
        EventsNext::Finish(Err(EventsError::InvalidEvent))
    ));
}

#[test]
fn forwarded_messages_must_be_taken() {
    assert!(matches!(EventsState::Forwarding.step(EventsInput::Sent(true)), EventsNext::Listen));
    assert!(matches!(
        EventsState::Forwarding.step(EventsInput::Sent(false)),
        EventsNext::Finish(Err(EventsError::HandlerGone))
    ));
}

#[test]
fn messages_are_sent_one_at_a_time() {
    let event = || {
        let message = SourceEvent::Message(raw("brightness", "25", ""));
        EventsInput::Source(Some(Ok((EventType::Property, message))))
    };
    assert!(EventsState::Listening.accepts(&event()));
    let EventsNext::Send(message, state) = EventsState::Listening.step(event()) else {
        panic!();
    };
    assert_eq!(message, Message::Brightness { global: true, brightness: 25, timestamp: None });
    assert!(!state.accepts(&event()));
    assert!(state.accepts(&EventsInput::Sent(true)));
    assert!(matches!(state.step(EventsInput::Sent(true)), EventsNext::Listen));
}

#[test]
fn lost_sources_stop_the_test_of_a_lamp() {
    for sent in [false, true] {
        match EventsState::Listening.step(EventsInput::Source(None)) {
            EventsNext::Send(Message::Stop, closing) => {
                assert!(!closing.can_stop());
                assert!(!closing.accepts(&EventsInput::Stop));
                assert!(matches!(
                    closing.step(EventsInput::Sent(sent)),
                    EventsNext::Finish(Err(EventsError::SourcesEnded))
                ));
            }
            next => panic!("{next:?}"),
        }
        let failed = Some(Err(reqwest_eventsource::Error::StreamEnded));
        match EventsState::Listening.step(EventsInput::Source(failed)) {
            EventsNext::Send(Message::Stop, closing) => {
                assert!(closing.can_stop());
                assert!(matches!(
                    closing.step(EventsInput::Sent(sent)),
                    EventsNext::Finish(Err(EventsError::SourceFailed(_)))
                ));
            }
            next => panic!("{next:?}"),
        }
    }
}

#[test]
fn the_forwarding_of_events_ends_well_when_the_test_is_over() {
    assert!(EventsState::Listening.accepts(&EventsInput::Stop));
    assert!(EventsState::Listening.accepts(&EventsInput::Source(None)));
    assert!(!EventsState::Listening.accepts(&EventsInput::Sent(true)));
    assert!(!EventsState::Forwarding.accepts(&EventsInput::Source(None)));
    for state in [EventsState::Listening, EventsState::Forwarding] {
        assert!(matches!(state.step(EventsInput::Stop), EventsNext::Finish(Ok(()))));
    }
}

#[test]
fn the_errors_of_events_have_texts() {
    assert_eq!(
        EventsError::SourceFailed(reqwest_eventsource::Error::StreamEnded).text(),
        "events stream closed prematurely: Stream ended"
    );
    assert_eq!(EventsError::SourcesEnded.text(), "events stream closed prematurely");
    assert_eq!(EventsError::InvalidEvent.text(), "invalid lamp event");
    assert_eq!(
        EventsError::InvalidCombination.text(),
        "invalid lamp event type/message combination"
    );
    assert_eq!(EventsError::HandlerGone.text(), "lamp handler channel closed unexpectedly");
}

/// Polls the four sources, and counts how many of them were polled.
fn poll_round(polls: Vec<SourcePoll<Result<u8, u8>>>) -> (usize, SourcePoll<Result<(EventType, u8), u8>>) {
    let mut round = PollRound::start();
    for (i, poll) in polls.into_iter().enumerate() {
        match round.step(poll) {
            RoundStep::Poll(next) => round = next,
            RoundStep::Done(outcome) => return (i + 1, outcome),
        }
    }
    panic!()
}

#[test]
fn the_first_source_with_something_wins_a_round() {
    let none = || SourcePoll::Ready(None);
    let pending = || SourcePoll::Pending;
    let item = |n| SourcePoll::Ready(Some(Ok(n)));
    let order = [EventType::Event, EventType::Overheat, EventType::Property, EventType::Brightness];
    for k in 0..4 {
        let polls = (0..4)
            .map(|i| if i < k { if i % 2 == 0 { pending() } else { none() } } else { item(i as u8) })
            .collect();
        match poll_round(polls) {
            (polled, SourcePoll::Ready(Some(Ok((source, n))))) => {
                assert_eq!((polled, source, n), (k + 1, order[k], k as u8));
            }
            outcome => panic!("{outcome:?}"),
        }
    }
    let failed = vec![none(), SourcePoll::Ready(Some(Err(9))), item(1), item(2)];
    assert!(matches!(poll_round(failed), (2, SourcePoll::Ready(Some(Err(9))))));
}

#[test]
fn a_round_without_anything_waits_unless_all_sources_are_at_their_end() {
    for pending in 0..4 {
        let polls = (0..4)
            .map(|i| if i == pending { SourcePoll::Pending } else { SourcePoll::Ready(None) })
            .collect();
        assert!(matches!(poll_round(polls), (4, SourcePoll::Pending)));
    }
    let ended = (0..4).map(|_| SourcePoll::Ready(None)).collect();
    assert!(matches!(poll_round(ended), (4, SourcePoll::Ready(None))));
}

#[test]
fn all_events_are_at_their_end_when_all_sources_are() {
    for i in 0..16 {
        let ended = |bit: i32| i & bit != 0;
        assert_eq!(is_terminated(ended(1), ended(2), ended(4), ended(8)), i == 15);
    }
}

fn fade(brightness: u32) -> Fade {
    Fade { brightness, duration: 2000, time_requested: at(1), time_completed: None }
}

fn polled(status: ActionResponseStatus) -> ActionResponse<Fade> {
    ActionResponse {
        status,
        output: None,
        error: None,
        href: None,
        time_requested: None,
        time_ended: None,
    }
}

fn requested(status: ActionResponseStatus, time: i128) -> ActionResponse<Fade> {
    ActionResponse { time_requested: at(time), ..polled(status) }
}

fn problem(title: &str) -> Problem {
    Problem {
        type_url: None,
        status: Some(500),
        title: Some(title.to_string()),
        detail: None,
        instance: None,
        additional_fields: NameMap::new(),
    }
}

/// Takes answers one after the other.
fn poll_all(answers: Vec<ActionResponse<Fade>>) -> (PolledActionStatus, Result<(), PolledActionError>) {
    let mut status = PolledActionStatus::default();
    for answer in answers {
        if let Err(error) = handle_next_polled_action(Some(Ok((200, answer))), &mut status) {
            return (status, Err(error));
        }
    }
    (status, Ok(()))
}

use ActionResponseStatus::{Completed, Failed, Pending, Running};

#[test]
fn a_polled_action_starts_unknown() {
    assert!(matches!(PolledActionStatus::default(), PolledActionStatus::Unknown));
}

#[test]
fn a_polled_action_goes_from_pending_to_running_to_its_end() {
    let completed = || ActionResponse { output: Some(fade(100)), time_ended: at(9), ..requested(Completed, 1) };
    let (status, result) = poll_all(vec![
        requested(Pending, 1),
        requested(Pending, 1),
        requested(Running, 1),
        requested(Running, 1),
        completed(),
        completed(),
    ]);
    assert!(result.is_ok());
    match status {
        PolledActionStatus::Completed { output, time_requested, time_ended } => {
            assert_eq!(output, Some(fade(100)));
            assert_eq!((time_requested, time_ended), (at(1), at(9)));
        }
        status => panic!("{status:?}"),
    }
    let failed = || ActionResponse { error: Some(problem("x")), ..requested(Failed, 1) };
    let (status, result) = poll_all(vec![requested(Running, 1), failed(), failed()]);
    assert!(result.is_ok());
    assert!(matches!(status, PolledActionStatus::Failed { error: Some(_), .. }));
}

#[test]
fn a_polled_action_never_goes_back_to_an_earlier_status() {
    let error = |from, to| poll_all(vec![polled(from), polled(to)]).1.unwrap_err();
    let transition = |from, to| match error(from, to) {
        PolledActionError::Transition(error) => error,
        error => panic!("{error:?}"),
    };
    assert_eq!(transition(Running, Pending), TransitionError::ToPending);
    assert_eq!(transition(Completed, Pending), TransitionError::ToPending);
    assert_eq!(transition(Failed, Pending), TransitionError::ToPending);
    assert_eq!(transition(Completed, Running), TransitionError::ToRunning);
    assert_eq!(transition(Failed, Running), TransitionError::ToRunning);
    assert_eq!(transition(Failed, Completed), TransitionError::FailedToCompleted);
    assert_eq!(transition(Completed, Failed), TransitionError::CompletedToFailed);
}

#[test]
fn a_polled_action_may_skip_what_comes_before() {
    for status in [Pending, Running, Completed, Failed] {
        assert!(poll_all(vec![polled(status)]).1.is_ok());
        for later in [Running, Completed, Failed] {
            assert!(poll_all(vec![polled(Pending), polled(later)]).1.is_ok());
        }
    }
}

#[test]
fn a_polled_action_may_not_change_its_request_time() {
    let transition = |from, to| match poll_all(vec![requested(from, 1), requested(to, 2)]).1 {
        Err(PolledActionError::Transition(error)) => error,
        result => panic!("{result:?}"),
    };
    assert_eq!(transition(Pending, Pending), TransitionError::PendingTimeChanged);
    assert_eq!(transition(Pending, Running), TransitionError::PendingToRunningTimeChanged);
    assert_eq!(transition(Running, Running), TransitionError::RunningTimeChanged);
    assert_eq!(transition(Pending, Completed), TransitionError::ToCompletedTimeChanged);
    assert_eq!(transition(Running, Completed), TransitionError::ToCompletedTimeChanged);
    assert_eq!(transition(Pending, Failed), TransitionError::ToFailedTimeChanged);
    assert_eq!(transition(Running, Failed), TransitionError::ToFailedTimeChanged);
    assert_eq!(transition(Completed, Completed), TransitionError::CompletedChanged);
    assert_eq!(transition(Failed, Failed), TransitionError::FailedChanged);
    // A request time that is left out is no other one.
    assert!(poll_all(vec![requested(Pending, 1), polled(Running)]).1.is_ok());
    assert!(poll_all(vec![polled(Pending), requested(Running, 2)]).1.is_ok());
    // The first pending answer is the one that is remembered.
    let (status, result) = poll_all(vec![polled(Pending), requested(Pending, 2)]);
    assert!(result.is_ok());
    assert!(matches!(status, PolledActionStatus::Pending { time_requested: None }));
}

#[test]
fn a_polled_action_may_tell_the_same_time_at_another_offset() {
    let east = Some(Timestamp { unix_nanos: 1, offset_seconds: 3600 });
    let told = |status, output| ActionResponse {
        output,
        time_requested: east,
        ..polled(status)
    };
    assert!(poll_all(vec![requested(Pending, 1), told(Pending, None)]).1.is_ok());
    let (status, result) = poll_all(vec![requested(Pending, 1), told(Running, None)]);
    assert!(result.is_ok());
    assert!(matches!(
        status,
        PolledActionStatus::Running {
            time_requested: Some(Timestamp { unix_nanos: 1, offset_seconds: 3600 })
        }
    ));
    let faded = Fade { time_requested: east, ..fade(100) };
    assert_eq!(faded, fade(100));
    let first = ActionResponse { output: Some(fade(100)), ..requested(Completed, 1) };
    let (status, result) = poll_all(vec![first, told(Completed, Some(faded))]);
    assert!(result.is_ok());
    assert!(matches!(
        status,
        PolledActionStatus::Completed {
            time_requested: Some(Timestamp { unix_nanos: 1, offset_seconds: 0 }),
            ..
        }
    ));
}

#[test]
fn a_polled_action_that_is_over_may_not_change() {
    let completed = |output| ActionResponse { output, ..polled(Completed) };
    let (status, result) = poll_all(vec![completed(Some(fade(100))), completed(Some(fade(99)))]);
    assert!(matches!(
        result,
        Err(PolledActionError::Transition(TransitionError::CompletedChanged))
    ));
    assert!(matches!(
        status,
        PolledActionStatus::Completed { output: Some(output), .. } if output == fade(100)
    ));
    let failed = |title| ActionResponse { error: Some(problem(title)), ..polled(Failed) };
    assert!(matches!(
        poll_all(vec![failed("a"), failed("b")]).1,
        Err(PolledActionError::Transition(TransitionError::FailedChanged))
    ));
}

#[test]
fn a_polled_action_tells_only_what_belongs_to_its_status() {
    let error = |answer| poll_all(vec![answer]).1.unwrap_err();
    let ended = |status| ActionResponse { time_ended: at(1), ..polled(status) };
    let broken = |status| ActionResponse { error: Some(problem("x")), ..polled(status) };
    let output = |status| ActionResponse { output: Some(fade(1)), ..polled(status) };
    assert!(matches!(error(ended(Pending)), PolledActionError::PendingEnded));
    assert!(matches!(error(broken(Pending)), PolledActionError::PendingError));
    assert!(matches!(error(output(Pending)), PolledActionError::PendingOutput));
    assert!(matches!(error(ended(Running)), PolledActionError::RunningEnded));
    assert!(matches!(error(broken(Running)), PolledActionError::RunningError));
    assert!(matches!(error(output(Running)), PolledActionError::RunningOutput));
    assert!(matches!(error(broken(Completed)), PolledActionError::CompletedError));
    assert!(matches!(error(output(Failed)), PolledActionError::FailedOutput));
}

#[test]
fn a_poll_itself_may_fail() {
    let mut status = PolledActionStatus::Running { time_requested: at(1) };
    let mut error = |action| handle_next_polled_action(action, &mut status).unwrap_err();
    assert!(matches!(error(None), PolledActionError::Finished));
    assert!(matches!(error(Some(Err(transport_error()))), PolledActionError::Polling(_)));
    assert!(matches!(error(Some(Ok((404, polled(Running))))), PolledActionError::Status(404)));
    assert!(matches!(status, PolledActionStatus::Running { time_requested } if time_requested == at(1)));
}

#[test]
fn the_transitions_of_a_polled_action_can_be_made_one_by_one() {
    let mut status = PolledActionStatus::default();
    assert_eq!(status.transition_to_pending(at(1)), Ok(()));
    assert_eq!(status.transition_to_running(at(1)), Ok(()));
    assert_eq!(status.transition_to_pending(at(1)), Err(TransitionError::ToPending));
    assert_eq!(status.transition_to_completed(None, at(1), at(2)), Ok(()));
    assert_eq!(status.transition_to_completed(None, at(1), at(2)), Ok(()));
    assert_eq!(status.transition_to_failed(None, at(1), at(2)), Err(TransitionError::CompletedToFailed));
    let mut status = PolledActionStatus::default();
    assert_eq!(status.transition_to_failed(Some(problem("x")), None, None), Ok(()));
    assert_eq!(status.transition_to_failed(Some(problem("x")), None, None), Ok(()));
    assert_eq!(status.transition_to_running(None), Err(TransitionError::ToRunning));
}

fn bright(global: bool, brightness: u32) -> Message {
    Message::Brightness { global, brightness, timestamp: at(1) }
}

fn hot(global: bool, data: u32) -> Message {
    Message::Overheated { global, data: Overheated(data), timestamp: at(1) }
}

fn watch(messages: Vec<Message>) -> EventWatch {
    let mut watch = EventWatch::Watching(FadeEvents::new());
    for message in messages {
        watch = watch.receive(Some(message));
    }
    watch
}

#[test]
fn the_events_of_a_fade_are_complete_when_all_was_told() {
    let messages = || {
        vec![
            bright(true, 25),
            bright(false, 60),
            hot(true, 101),
            bright(true, 100),
            hot(false, 150),
            bright(false, 100),
        ]
    };
    assert!(matches!(watch(messages()), EventWatch::Done(Ok(()))));
    for left_out in 2..6 {
        let mut some = messages();
        some.remove(left_out);
        assert!(matches!(watch(some), EventWatch::Watching(_)));
    }
    // A brightness before the end of the fade takes the place of the one at its end.
    let back = vec![bright(true, 100), bright(false, 100), bright(true, 99), hot(true, 101), hot(false, 101)];
    assert!(matches!(
        watch(back),
        EventWatch::Watching(FadeEvents {
            overheated: true,
            overheated_global: true,
            last_brightness: Some(100),
            last_global_brightness: Some(99),
        })
    ));
    assert!(matches!(watch(vec![]).expire(), EventWatch::TimedOut));
    assert!(matches!(watch(messages()).expire(), EventWatch::Done(Ok(()))));
}

#[test]
fn wrong_events_of_a_fade_are_refused() {
    let untimed = Message::Brightness { global: true, brightness: 50, timestamp: None };
    for message in [bright(true, 24), bright(false, 101), untimed] {
        assert!(matches!(
            watch(vec![message]),
            EventWatch::Done(Err(WatchError::BrightnessEvent))
        ));
    }
    let untimed = Message::Overheated { global: true, data: Overheated(101), timestamp: None };
    for message in [hot(true, 100), untimed] {
        assert!(matches!(
            watch(vec![message]),
            EventWatch::Done(Err(WatchError::OverheatedEvent))
        ));
    }
    assert!(matches!(
        watch(vec![Message::Stop]),
        EventWatch::Done(Err(WatchError::HandlerClosed))
    ));
    assert!(matches!(
        EventWatch::Watching(FadeEvents::new()).receive(None),
        EventWatch::Done(Err(WatchError::HandlerClosed))
    ));
    let late = watch(vec![hot(true, 1), bright(true, 50)]);
    assert!(matches!(late, EventWatch::Done(Err(WatchError::OverheatedEvent))));
}

#[test]
fn the_brightness_of_a_fading_lamp_grows_evenly() {
    assert_eq!(interpolate_brightness_at_t(0), 25);
    assert_eq!(interpolate_brightness_at_t(900), 58);
    assert_eq!(interpolate_brightness_at_t(1000), 62);
    assert_eq!(interpolate_brightness_at_t(1100), 66);
    assert_eq!(interpolate_brightness_at_t(2000), 100);
    for brightness in 0..=100 {
        let result = check_halfway(Ok((200, brightness)));
        match result {
            Ok(()) => assert!((58..=66).contains(&brightness)),
            Err(WatchError::Brightness(found)) => {
                assert!(found == brightness && !(58..=66).contains(&brightness));
            }
            Err(error) => panic!("{error:?}"),
        }
    }
    assert!(matches!(check_halfway(Ok((500, 60))), Err(WatchError::OkStatus(500))));
    assert!(matches!(check_halfway(Err(transport_error())), Err(WatchError::Reqwest(_))));
}

#[test]
fn a_polled_fade_must_be_completed_in_time() {
    let start = || PollWatch::Polling(PolledActionStatus::default());
    let completed = || Some(Ok((200, polled(Completed))));
    let running = || Some(Ok((200, polled(Running))));
    assert!(matches!(start().poll(completed()).expire(), PollWatch::Done(Ok(()))));
    assert!(matches!(
        start().poll(running()).expire(),
        PollWatch::Done(Err(WatchError::NotFinished))
    ));
    assert!(matches!(start().expire(), PollWatch::Done(Err(WatchError::NotFinished))));
    assert!(matches!(
        start().poll(completed()).poll(running()),
        PollWatch::Done(Err(WatchError::Poll(
            PolledActionStatus::Completed { .. },
            PolledActionError::Transition(TransitionError::ToRunning)
        )))
    ));
}

#[test]
fn locations_are_read_from_headers() {
    assert!(matches!(read_location(None), Location::Missing));
    assert!(matches!(
        read_location(Some(b"/actions/fade/1")),
        Location::At(href) if href == "/actions/fade/1"
    ));
    assert!(matches!(read_location(Some(b"a\tb ~")), Location::At(href) if href == "a\tb ~"));
    assert!(matches!(read_location(Some(b"")), Location::At(href) if href.is_empty()));
    for bytes in [b"\xe9".as_slice(), b"a\x7f", b"a\n", b"\0"] {
        assert!(matches!(read_location(Some(bytes)), Location::Unreadable));
    }
}

const ASKED: FadeAction = FadeAction { brightness: 100, duration: 2000 };

fn started() -> ActionResponse<FadeAction> {
    ActionResponse {
        status: Running,
        output: Some(ASKED),
        error: None,
        href: None,
        time_requested: None,
        time_ended: None,
    }
}

fn location() -> Location {
    Location::At("/actions/fade/1".to_string())
}

fn after(state: LampState, input: LampInput) -> (LampState, LampAction) {
    assert!(state.accepts(&input), "{state:?} {input:?}");
    match state.step(input) {
        LampNext::Continue(state, action) => (state, action),
        next => panic!("{next:?}"),
    }
}

fn error_after(state: LampState, input: LampInput) -> LampError {
    assert!(state.accepts(&input), "{state:?} {input:?}");
    match state.step(input) {
        LampNext::Finish(Err(error)) => error,
        next => panic!("{next:?}"),
    }
}

fn fading() -> LampState {
    let querying = LampState::QueryingFade { href: "/actions/fade/1".to_string() };
    after(querying, LampInput::Queried(Ok((200, started())))).0
}

#[test]
fn a_faithful_lamp_passes() {
    let (state, action) = LampState::start();
    assert_eq!(action, LampAction::GetDescription);
    let (state, action) = after(state, LampInput::Description(Ok((200, description()))));
    assert_eq!(action, LampAction::GetProps);
    let props = Props { brightness: 50, on: true };
    let (state, action) = after(state, LampInput::Props(Ok((200, props))));
    assert_eq!(action, LampAction::GetBrightness);
    let (state, action) = after(state, LampInput::Brightness(Ok((200, 50))));
    assert_eq!(action, LampAction::SetBrightness(25, 50));
    let (state, action) = after(state, LampInput::Message(Some(bright(false, 25))));
    assert_eq!(action, LampAction::Wait);
    let (state, action) = after(state, LampInput::Written(Ok(204)));
    assert_eq!(action, LampAction::Wait);
    let (state, action) = after(state, LampInput::Message(Some(bright(true, 25))));
    assert_eq!(action, LampAction::Wait);
    let (state, action) = after(state, LampInput::SetOver);
    assert_eq!(action, LampAction::GetBrightness);
    let (state, action) = after(state, LampInput::Brightness(Ok((200, 25))));
    assert_eq!(action, LampAction::StartFade(ASKED));
    assert!(!state.listens());
    let (state, action) = after(state, LampInput::Started(Ok((201, location(), started()))));
    assert_eq!(action, LampAction::QueryFade);
    assert_eq!(state.fade_href(), Some("/actions/fade/1"));
    let (state, action) = after(state, LampInput::Queried(Ok((200, started()))));
    assert_eq!(action, LampAction::WatchFade { period: 100, check: 1000, timeout: 2100 });
    assert_eq!(state.fade_href(), Some("/actions/fade/1"));
    let (state, _) = after(state, LampInput::Polled(Some(Ok((200, polled(Running))))));
    let (state, _) = after(state, LampInput::Message(Some(hot(true, 101))));
    let (state, action) = after(state, LampInput::CheckDue);
    assert_eq!(action, LampAction::GetBrightness);
    let (state, _) = after(state, LampInput::Brightness(Ok((200, 60))));
    let (state, _) = after(state, LampInput::Message(Some(hot(false, 101))));
    let (state, _) = after(state, LampInput::Message(Some(bright(true, 100))));
    let (state, _) = after(state, LampInput::Polled(Some(Ok((200, polled(Completed))))));
    let (state, action) = after(state, LampInput::Message(Some(bright(false, 100))));
    assert_eq!(action, LampAction::Wait);
    assert!(!state.listens());
    let (state, action) = after(state, LampInput::PollsOver);
    assert_eq!(action, LampAction::RestoreBrightness(50));
    let (state, action) = after(state, LampInput::Written(Ok(204)));
    assert_eq!(action, LampAction::Stop);
    assert!(matches!(state.step(LampInput::Stopped), LampNext::Finish(Ok(()))));
}

#[test]
fn requests_to_a_lamp_go_to_its_endpoints() {
    let request = |action: LampAction| action.request();
    assert_eq!(request(LampAction::GetDescription), Some((Method::Get, ".well-known/wot")));
    assert_eq!(request(LampAction::GetProps), Some((Method::Get, "properties")));
    assert_eq!(request(LampAction::GetBrightness), Some((Method::Get, "properties/brightness")));
    let put = Some((Method::Put, "properties/brightness"));
    assert_eq!(request(LampAction::SetBrightness(25, 50)), put);
    assert_eq!(request(LampAction::RestoreBrightness(50)), put);
    assert_eq!(request(LampAction::StartFade(ASKED)), Some((Method::Post, "actions/fade")));
    assert_eq!(request(LampAction::QueryFade), None);
    assert_eq!(request(LampAction::Stop), None);
}

#[test]
fn requests_for_a_fade_go_to_where_it_is_found() {
    let watch = LampAction::WatchFade { period: 100, check: 1000, timeout: 2100 };
    let found = Some((Method::Get, "/actions/fade/1"));
    let querying = LampState::QueryingFade { href: "/actions/fade/1".to_string() };
    assert_eq!(querying.request_for(LampAction::QueryFade), found);
    assert_eq!(fading().request_for(watch), found);
    assert_eq!(
        fading().request_for(LampAction::GetBrightness),
        Some((Method::Get, "properties/brightness"))
    );
    assert_eq!(fading().request_for(LampAction::Wait), None);
    assert_eq!(LampState::Describing.request_for(LampAction::QueryFade), None);
    assert_eq!(
        LampState::Describing.request_for(LampAction::GetDescription),
        Some((Method::Get, ".well-known/wot"))
    );
}

/// What happens to a faithful lamp.
fn good_run() -> Vec<LampInput> {
    let props = Props { brightness: 50, on: true };
    let mut inputs = vec![
        LampInput::Description(Ok((200, description()))),
        LampInput::Props(Ok((200, props))),
        LampInput::Brightness(Ok((200, 50))),
        LampInput::Written(Ok(204)),
        LampInput::Message(Some(bright(true, 25))),
        LampInput::SetOver,
        LampInput::Brightness(Ok((200, 25))),
        LampInput::Started(Ok((201, location(), started()))),
        LampInput::Queried(Ok((200, started()))),
        LampInput::Polled(Some(Ok((200, polled(Running))))),
        LampInput::CheckDue,
        LampInput::Brightness(Ok((200, 62))),
    ];
    inputs.extend(all_messages().into_iter().map(|message| LampInput::Message(Some(message))));
    inputs.push(LampInput::Polled(Some(Ok((200, polled(Completed))))));
    inputs.push(LampInput::PollsOver);
    inputs.push(LampInput::Written(Ok(204)));
    inputs.push(LampInput::Stopped);
    inputs
}

/// Gives a lamp those inputs that can happen, until its test is over.
fn run(inputs: Vec<LampInput>) -> (Vec<LampAction>, Option<Result<(), LampError>>) {
    let (mut state, first) = LampState::start();
    let mut actions = vec![first];
    for input in inputs {
        if !state.accepts(&input) {
            continue;
        }
        match state.step(input) {
            LampNext::Continue(next, action) => {
                if action != LampAction::Wait {
                    actions.push(action);
                }
                state = next;
            }
            LampNext::Finish(result) => return (actions, Some(result)),
        }
    }
    (actions, None)
}

/// Another input of the same kind that should not happen, if there is one.
fn spoiled(input: LampInput) -> Option<LampInput> {
    Some(match input {
        LampInput::Description(_) => LampInput::Description(Ok((404, description()))),
        LampInput::Props(_) => LampInput::Props(Err(transport_error())),
        LampInput::Brightness(_) => LampInput::Brightness(Ok((200, 51))),
        LampInput::Written(_) => {
            LampInput::Written(Err(IntoFutureError::NotEmpty("x".to_string())))
        }
        LampInput::Started(_) => LampInput::Started(Ok((200, location(), started()))),
        LampInput::Queried(_) => LampInput::Queried(Ok((404, started()))),
        LampInput::Polled(_) => LampInput::Polled(None),
        LampInput::Message(_) => LampInput::Message(Some(Message::Stop)),
        _ => return None,
    })
}

#[test]
fn a_lamp_passes_only_after_everything_was_done() {
    let (actions, result) = run(good_run());
    assert!(matches!(result, Some(Ok(()))));
    assert_eq!(
        actions,
        vec![
            LampAction::GetDescription,
            LampAction::GetProps,
            LampAction::GetBrightness,
            LampAction::SetBrightness(25, 50),
            LampAction::GetBrightness,
            LampAction::StartFade(ASKED),
            LampAction::QueryFade,
            LampAction::WatchFade { period: 100, check: 1000, timeout: 2100 },
            LampAction::GetBrightness,
            LampAction::RestoreBrightness(50),
            LampAction::Stop,
        ]
    );
}

#[test]
fn a_lamp_that_does_otherwise_at_any_place_fails() {
    let mut failures = 0;
    for i in 0..good_run().len() {
        let mut inputs = good_run();
        if let Some(input) = spoiled(inputs.remove(i)) {
            inputs.insert(i, input);
            inputs.push(LampInput::EventsOver);
            inputs.push(LampInput::Stopped);
            let (_, result) = run(inputs);
            assert!(matches!(result, Some(Err(_))), "{i} {result:?}");
            failures += 1;
        }
    }
    assert_eq!(failures, 16);
}

#[test]
fn no_message_may_come_while_a_lamp_is_found() {
    for state in [
        || LampState::Describing,
        || LampState::ReadingProps,
        || LampState::ReadingBrightness,
        || LampState::Rereading,
    ] {
        assert!(state().listens());
        assert!(matches!(
            error_after(state(), LampInput::Message(Some(Message::Stop))),
            LampError::Incoming(IncomingMessageError::UnexpectedMessage(Message::Stop))
        ));
        assert!(matches!(
            error_after(state(), LampInput::Message(None)),
            LampError::Incoming(IncomingMessageError::ChannelClosed)
        ));
    }
}

#[test]
fn a_lamp_must_be_found_as_expected() {
    let mut other = description();
    other.title = CowStr::from("Other");
    assert!(matches!(
        error_after(LampState::Describing, LampInput::Description(Ok((200, other)))),
        LampError::Description(thing) if thing.title.as_str() == "Other"
    ));
    assert!(matches!(
        error_after(LampState::Describing, LampInput::Description(Ok((404, description())))),
        LampError::OkStatus(404)
    ));
    assert!(matches!(
        error_after(LampState::Describing, LampInput::Description(Err(transport_error()))),
        LampError::Reqwest(_)
    ));
    for props in [Props { brightness: 49, on: true }, Props { brightness: 50, on: false }] {
        assert!(matches!(
            error_after(LampState::ReadingProps, LampInput::Props(Ok((200, props)))),
            LampError::Props(found) if found == props
        ));
    }
    assert!(matches!(
        error_after(LampState::ReadingBrightness, LampInput::Brightness(Ok((200, 49)))),
        LampError::Brightness { expected: 50, found: 49 }
    ));
    assert!(matches!(
        error_after(LampState::Rereading, LampInput::Brightness(Ok((200, 50)))),
        LampError::Brightness { expected: 25, found: 50 }
    ));
}

fn setting() -> LampState {
    after(LampState::ReadingBrightness, LampInput::Brightness(Ok((200, 50)))).0
}

#[test]
fn a_brightness_that_is_set_must_be_told() {
    let (state, _) = after(setting(), LampInput::Written(Ok(204)));
    assert!(matches!(error_after(state, LampInput::SetOver), LampError::NoBrightnessEvent));
    let (state, _) = after(setting(), LampInput::SetOver);
    assert!(!state.listens());
    assert!(matches!(
        error_after(state, LampInput::Written(Ok(204))),
        LampError::NoBrightnessEvent
    ));
}

#[test]
fn only_the_brightness_that_is_set_may_be_told() {
    let error = |message| {
        let (state, action) = after(setting(), LampInput::Message(message));
        assert_eq!(action, LampAction::Wait);
        assert!(!state.listens());
        error_after(state, LampInput::Written(Ok(204)))
    };
    assert!(matches!(error(Some(bright(true, 26))), LampError::BrightnessEvent));
    let untimed = Message::Brightness { global: true, brightness: 25, timestamp: None };
    assert!(matches!(error(Some(untimed)), LampError::BrightnessEvent));
    assert!(matches!(
        error(Some(hot(true, 101))),
        LampError::UnexpectedEvent(Message::Overheated { .. })
    ));
    assert!(matches!(error(Some(Message::Stop)), LampError::UnexpectedEvent(Message::Stop)));
    assert!(matches!(error(None), LampError::StreamClosed));
}

#[test]
fn an_error_of_the_write_comes_before_one_of_the_events() {
    let failed = || after(setting(), LampInput::Message(None)).0;
    assert!(matches!(
        error_after(failed(), LampInput::Written(Ok(200))),
        LampError::NoContentStatus(200)
    ));
    assert!(matches!(
        error_after(failed(), LampInput::Written(Err(IntoFutureError::NotEmpty(String::new())))),
        LampError::Write(_)
    ));
    let (state, _) = after(setting(), LampInput::Written(Ok(200)));
    assert!(matches!(error_after(state, LampInput::Message(None)), LampError::NoContentStatus(200)));
}

#[test]
fn a_fade_must_be_started_as_asked() {
    let error = |status, location, response| {
        error_after(LampState::StartingFade, LampInput::Started(Ok((status, location, response))))
    };
    assert!(matches!(error(200, location(), started()), LampError::CreatedStatus(200)));
    let failed = ActionResponse { error: Some(problem("x")), ..started() };
    assert!(matches!(error(201, location(), failed), LampError::FadeFailed));
    let completed = ActionResponse { status: Completed, ..started() };
    assert!(matches!(error(201, location(), completed), LampError::FadeStatus(Completed)));
    let silent = ActionResponse { output: None, ..started() };
    assert!(matches!(error(201, location(), silent), LampError::FadeOutput(None)));
    let other = FadeAction { duration: 1, ..ASKED };
    let changed = ActionResponse { output: Some(other), ..started() };
    assert!(matches!(
        error(201, location(), changed),
        LampError::FadeOutput(Some(found)) if found == other
    ));
    assert!(matches!(error(201, Location::Missing, started()), LampError::NoLocation));
    assert!(matches!(error(201, Location::Unreadable, started()), LampError::UnreadableLocation));
    let elsewhere = Location::At("/actions/other/1".to_string());
    assert!(matches!(error(201, elsewhere, started()), LampError::WrongLocation));
    let incoherent = ActionResponse { href: Some("/actions/fade/2".to_string()), ..started() };
    assert!(matches!(error(201, location(), incoherent), LampError::IncoherentLocation));
    assert!(matches!(
        error_after(LampState::StartingFade, LampInput::Started(Err(transport_error()))),
        LampError::Reqwest(_)
    ));
    let coherent = ActionResponse { href: Some("/actions/fade/1".to_string()), ..started() };
    let input = LampInput::Started(Ok((201, location(), coherent)));
    assert_eq!(after(LampState::StartingFade, input).1, LampAction::QueryFade);
}

#[test]
fn a_fade_may_not_be_over_at_once() {
    let querying = || LampState::QueryingFade { href: "/actions/fade/1".to_string() };
    for status in [Completed, Failed] {
        let response = ActionResponse { status, ..started() };
        assert!(matches!(
            error_after(querying(), LampInput::Queried(Ok((200, response)))),
            LampError::FadeOver
        ));
    }
    assert!(matches!(
        error_after(querying(), LampInput::Queried(Ok((404, started())))),
        LampError::OkStatus(404)
    ));
    let pending = ActionResponse { status: Pending, ..started() };
    after(querying(), LampInput::Queried(Ok((200, pending))));
}

/// Ends the watch of a fading lamp with the given outcomes.
fn end_of_fade(completes: bool, brightness: i64, messages: Vec<Message>) -> (LampState, LampAction) {
    let mut state = fading();
    for message in messages {
        state = after(state, LampInput::Message(Some(message))).0;
    }
    let last = if completes { Completed } else { Running };
    state = after(state, LampInput::Polled(Some(Ok((200, polled(last)))))).0;
    state = after(state, LampInput::CheckDue).0;
    state = after(state, LampInput::Brightness(Ok((200, brightness)))).0;
    let mut action = LampAction::Wait;
    if state.accepts(&LampInput::EventsOver) {
        (state, action) = after(state, LampInput::EventsOver);
        assert_eq!(action, LampAction::Wait);
    }
    if state.accepts(&LampInput::PollsOver) {
        (state, action) = after(state, LampInput::PollsOver);
    }
    (state, action)
}

fn all_messages() -> Vec<Message> {
    vec![hot(true, 101), hot(false, 101), bright(true, 100), bright(false, 100)]
}

#[test]
fn what_goes_wrong_while_a_lamp_fades_stops_the_events_first() {
    let error = |completes, brightness, messages| match end_of_fade(completes, brightness, messages) {
        (LampState::Stopping(Err(error)), LampAction::Stop) => error,
        next => panic!("{next:?}"),
    };
    assert!(matches!(
        error(false, 60, all_messages()),
        LampError::Watch(WatchError::NotFinished)
    ));
    assert!(matches!(
        error(true, 57, all_messages()),
        LampError::Watch(WatchError::Brightness(57))
    ));
    assert!(matches!(
        error(true, 60, vec![hot(true, 1)]),
        LampError::Watch(WatchError::OverheatedEvent)
    ));
    assert!(matches!(error(true, 60, vec![]), LampError::MissingEvents));
    // The polls come before the brightness, the brightness before the events.
    assert!(matches!(
        error(false, 57, vec![hot(true, 1)]),
        LampError::Watch(WatchError::NotFinished)
    ));
    assert!(matches!(error(true, 57, vec![]), LampError::Watch(WatchError::Brightness(57))));
    let (state, action) = end_of_fade(true, 60, all_messages());
    assert!(matches!(state, LampState::Restoring));
    assert_eq!(action, LampAction::RestoreBrightness(50));
    assert!(matches!(
        LampState::Stopping(Err(LampError::MissingEvents)).step(LampInput::Stopped),
        LampNext::Finish(Err(LampError::MissingEvents))
    ));
}

#[test]
fn a_refused_poll_ends_the_polls_but_not_the_watch() {
    let (state, action) = after(fading(), LampInput::Polled(None));
    assert_eq!(action, LampAction::Wait);
    assert!(!state.accepts(&LampInput::PollsOver));
    assert!(!state.accepts(&LampInput::Polled(None)));
    assert!(state.listens());
    assert!(state.accepts(&LampInput::CheckDue) && state.accepts(&LampInput::EventsOver));
}

#[test]
fn a_lamp_is_restored_with_any_answer_but_not_without_one() {
    let (state, action) = after(LampState::Restoring, LampInput::Written(Ok(500)));
    assert_eq!(action, LampAction::Stop);
    assert!(matches!(state, LampState::Stopping(Ok(()))));
    assert!(matches!(
        error_after(
            LampState::Restoring,
            LampInput::Written(Err(IntoFutureError::Reqwest(transport_error())))
        ),
        LampError::Write(IntoFutureError::Reqwest(_))
    ));
}

#[test]
fn inputs_are_accepted_only_when_they_can_happen() {
    let describing = LampState::Describing;
    assert!(!describing.accepts(&LampInput::Brightness(Ok((200, 50)))));
    assert!(!describing.accepts(&LampInput::SetOver));
    assert!(!describing.accepts(&LampInput::Stopped));
    let state = setting();
    assert!(state.accepts(&LampInput::SetOver));
    assert!(!state.accepts(&LampInput::EventsOver));
    let (state, _) = after(state, LampInput::Written(Ok(204)));
    assert!(!state.accepts(&LampInput::Written(Ok(204))));
    assert!(!fading().accepts(&LampInput::Brightness(Ok((200, 60)))));
    assert_eq!(LampState::Restoring.fade_href(), None);
}

#[test]
fn the_requests_are_judged_before_the_events() {
    let lamp = || Err(LampError::MissingEvents);
    let events = || Err(EventsError::SourcesEnded);
    assert!(matches!(conclude(lamp(), events()), Err(RunError::Active(LampError::MissingEvents))));
    assert!(matches!(conclude(lamp(), Ok(())), Err(RunError::Active(_))));
    assert!(matches!(conclude(Ok(()), events()), Err(RunError::Events(EventsError::SourcesEnded))));
    assert!(matches!(conclude(Ok(()), Ok(())), Ok(())));
}

#[test]
fn what_a_lamp_tells_can_be_named() {
    let status = ActionStatus::Fade(fade(1));
    assert_eq!(status, ActionStatus::Fade(fade(1)));
    assert_ne!(fade(1), fade(2));
    let thing: ThingDescription = description();
    assert_eq!(thing.title.as_str(), "My Lamp");
}

#[test]
fn the_errors_of_a_lamp_have_texts() {
    let text = |error: LampError| error.text("<lamp>", "<held>");
    assert_eq!(text(LampError::OkStatus(404)), "Expected OK status code, got 404 Not Found");
    assert_eq!(text(LampError::NoContentStatus(200)), "Expected NO_CONTENT status code, got 200 OK");
    assert_eq!(text(LampError::CreatedStatus(200)), "Expected CREATED status code, got 200 OK");
    assert_eq!(text(LampError::Reqwest(transport_error())), transport_error().to_string());
    assert_eq!(
        text(LampError::Write(IntoFutureError::NotEmpty("x".to_string()))),
        "Expected empty response, obtained: x"
    );
    assert_eq!(
        text(LampError::Description(description())),
        "Invalid lamp. Expected:\n<lamp>\nObtained:\n<held>"
    );
    let props = Props { brightness: -1, on: false };
    let expected = Props { brightness: 50, on: true };
    assert_eq!(
        text(LampError::Props(props)),
        format!("Invalid lamp props. Expected:\n{expected:#?}\nObtained:\n{props:#?}")
    );
    assert_eq!(
        text(LampError::Brightness { expected: 50, found: -3 }),
        "Invalid lamp brightness. Expected 50, got -3"
    );
    assert_eq!(
        text(LampError::Incoming(IncomingMessageError::UnexpectedMessage(Message::Stop))),
        "Message from event handler received when nothing was expected: <held>"
    );
    assert_eq!(
        text(LampError::UnexpectedEvent(Message::Stop)),
        "unexpected event from lamp when setting brightness: <held>"
    );
    assert_eq!(
        text(LampError::FadeStatus(Completed)),
        "Invalid lamp fade action response. Expected status \"running\" or \"pending\", received Completed"
    );
    let told = Some(FadeAction { brightness: 1, duration: 2 });
    assert_eq!(
        text(LampError::FadeOutput(told)),
        format!("Invalid lamp fade action response. Expected output {ASKED:?}, got {told:?}")
    );
    assert_eq!(
        text(LampError::FadeOutput(None)),
        format!("Invalid lamp fade action response. Expected output {ASKED:?}, got None")
    );
    assert_eq!(text(LampError::UnreadableLocation), "failed to convert header to a str");
    assert_eq!(
        text(LampError::Watch(WatchError::Brightness(57))),
        "error while waiting for lamp events: Invalid lamp brightness after 1s of fade. Expected between 58 and 66, got 57"
    );
    assert_eq!(
        text(LampError::MissingEvents),
        "not all the expected events are received from the lamp"
    );
    let texts: Vec<String> = vec![
        text(LampError::BrightnessEvent),
        text(LampError::StreamClosed),
        text(LampError::NoBrightnessEvent),
        text(LampError::FadeFailed),
        text(LampError::NoLocation),
        text(LampError::WrongLocation),
        text(LampError::IncoherentLocation),
        text(LampError::FadeOver),
    ];
    assert_eq!(
        texts,
        vec![
            "invalid lamp brightness status event",
            "lamp events stream closed unexpectedly",
            "one or more brightness event is expected after the value has been set",
            "Lamp fade action unexpectedly returned an error",
            "Lamp fade action should respond with a 'Location' header",
            "Lamp fade action location should start with '/actions/fade/'",
            "Lamp fade action href in body must be coherent with location header",
            "Fade action should be running or pending after being created",
        ]
    );
}

#[test]
fn the_errors_of_a_lamp_tell_of_the_transport() {
    let describe = |error: LampError| error.describe("<transport>", "<lamp>", "<held>");
    assert_eq!(describe(LampError::Reqwest(transport_error())), "<transport>");
    assert_eq!(
        describe(LampError::Write(IntoFutureError::Reqwest(transport_error()))),
        "Reqwest error: <transport>"
    );
    assert_eq!(
        describe(LampError::Watch(WatchError::Reqwest(transport_error()))),
        "error while waiting for lamp events: <transport>"
    );
    assert_eq!(
        describe(LampError::Description(description())),
        "Invalid lamp. Expected:\n<lamp>\nObtained:\n<held>"
    );
    assert_eq!(describe(LampError::MissingEvents), LampError::MissingEvents.text("", ""));
    assert_eq!(
        WatchError::Reqwest(transport_error()).describe("<transport>", "<status>"),
        "<transport>"
    );
    let poll = WatchError::Poll(PolledActionStatus::Unknown, PolledActionError::Finished);
    assert_eq!(
        poll.describe("<transport>", "<status>"),
        "lamp fade action poller finished unexpectedly"
    );
    assert!(poll.transport_error().is_none());
    assert!(LampError::Watch(WatchError::Reqwest(transport_error())).transport_error().is_some());
    assert_eq!(
        LampError::Watch(WatchError::Reqwest(transport_error())).text("", ""),
        format!("error while waiting for lamp events: {}", transport_error())
    );
}

#[test]
fn a_status_in_an_error_of_a_lamp_is_one() {
    let poll = |status| WatchError::Poll(PolledActionStatus::Unknown, PolledActionError::Status(status));
    for (status, wf) in [(99, false), (100, true), (999, true), (1000, false)] {
        assert_eq!(LampError::OkStatus(status).is_wf(), wf);
        assert_eq!(LampError::NoContentStatus(status).is_wf(), wf);
        assert_eq!(LampError::CreatedStatus(status).is_wf(), wf);
        assert_eq!(LampError::Watch(WatchError::OkStatus(status)).is_wf(), wf);
        assert_eq!(LampError::Watch(poll(status)).is_wf(), wf);
    }
    assert!(LampError::MissingEvents.is_wf());
}

#[test]
fn what_is_known_of_a_polled_action_can_be_copied() {
    let mut problem = problem("broken");
    problem.additional_fields.insert(
        CowStr::from("values"),
        JsonValue::Array(vec![JsonValue::Null, JsonValue::Text("x".to_string())]),
    );
    let mut nested = NameMap::new();
    nested.insert(CowStr::from("on"), JsonValue::Bool(true));
    nested.insert(CowStr::from("n"), JsonValue::Number(JsonNumber::NegInt(-1)));
    problem.additional_fields.insert(CowStr::from("nested"), JsonValue::Object(nested));
    let failed = ActionResponse {
        error: Some(problem),
        time_ended: at(2),
        ..requested(Failed, 1)
    };

    let copy = failed.clone();
    assert!(eq_opt_http_api_problem(&copy.error, &failed.error));
    assert_eq!(format!("{copy:?}"), format!("{failed:?}"));

    let (status, result) = poll_all(vec![failed]);
    assert!(result.is_ok());
    assert_eq!(format!("{:?}", status.clone()), format!("{status:?}"));
    for status in [Pending, Running, Completed] {
        let (status, _) = poll_all(vec![requested(status, 1)]);
        assert_eq!(format!("{:?}", status.clone()), format!("{status:?}"));
    }
    assert!(matches!(PolledActionStatus::Unknown.clone(), PolledActionStatus::Unknown));
}

#[test]
fn the_errors_of_a_fading_lamp_have_texts() {
    let poll = |error| WatchError::Poll(PolledActionStatus::Unknown, error).text("<status>");
    assert_eq!(
        poll(PolledActionError::Transition(TransitionError::ToPending)),
        "invalid transition from <status> to Pending"
    );
    assert_eq!(
        poll(PolledActionError::Transition(TransitionError::ToRunning)),
        "invalid transition from <status> to Running"
    );
    assert_eq!(
        poll(PolledActionError::Transition(TransitionError::RunningTimeChanged)),
        "invalid Running non-transition with a changing request time"
    );
    assert_eq!(
        poll(PolledActionError::Polling(transport_error())),
        "error while polling fade action"
    );
    assert_eq!(
        poll(PolledActionError::Status(503)),
        "lamp fade action poller got the status code 503 Service Unavailable instead of OK"
    );
    assert_eq!(
        poll(PolledActionError::Finished),
        "lamp fade action poller finished unexpectedly"
    );
    assert_eq!(
        poll(PolledActionError::FailedOutput),
        "lamp fade action in a running state cannot have an output field"
    );
    assert_eq!(
        WatchError::NotFinished.text(""),
        "lamp fade action not finished before timeout"
    );
    assert_eq!(WatchError::OkStatus(404).text(""), "Expected OK status code, got 404 Not Found");
    assert_eq!(WatchError::Reqwest(transport_error()).text(""), transport_error().to_string());
    assert_eq!(WatchError::OverheatedEvent.text(""), "invalid lamp overheated event");
    assert_eq!(WatchError::BrightnessEvent.text(""), "invalid lamp brightness status event");
    assert_eq!(WatchError::HandlerClosed.text(""), "lamp event handler closed prematurely");
}
