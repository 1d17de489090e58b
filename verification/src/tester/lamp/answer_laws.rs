//! How each answer and event of a lamp is judged, and where it leads.

use vstd::prelude::*;

use crate::lamp::Brightness;
use crate::td::ThingDescription;
use crate::tester::lamp::run::{
    CheckWatch, LampAction, LampInput, LampNext, LampState, SetWatch,
};
use crate::tester::lamp::watch::{EventWatch, FadeEvents, PollWatch, WatchError};
use crate::tester::lamp::{
    Fade, FadeAction, LampError, Location, Message, Overheated, PolledActionStatus, Props,
};
use crate::tester::{
    ActionResponse, ActionResponseStatus, IncomingMessageError, IntoFutureError, Method,
};

verus! {

/// An answer that holds the properties is right exactly when it is `OK` and the lamp is on
/// at a brightness of 50. Otherwise it is told what came.
pub proof fn properties_are_judged(answer: Result<(u16, Props), reqwest::Error>)
    ensures
        ({
            let defect = crate::tester::lamp::active::props_defect(answer);
            &&& defect is None <==> answer == Ok::<(u16, Props), reqwest::Error>(
                (200, Props { brightness: 50, on: true }),
            )
            &&& match answer {
                Err(error) => defect == Some(LampError::Reqwest(error)),
                Ok((status, found)) => {
                    &&& defect == Some(LampError::OkStatus(status)) <==> status != 200
                    &&& defect == Some(LampError::Props(found)) <==> status == 200 && !(found.on
                        && found.brightness == 50)
                },
            }
        }),
{
}

/// An answer that holds a brightness is right exactly when it is `OK` and the brightness is
/// the expected one. Otherwise it is told what came.
pub proof fn brightness_is_judged(
    answer: Result<(u16, Brightness), reqwest::Error>,
    expected: Brightness,
)
    ensures
        ({
            let defect = crate::tester::lamp::active::brightness_defect(answer, expected);
            &&& defect is None <==> answer == Ok::<(u16, Brightness), reqwest::Error>(
                (200, expected),
            )
            &&& match answer {
                Err(error) => defect == Some(LampError::Reqwest(error)),
                Ok((status, found)) => {
                    &&& defect == Some(LampError::OkStatus(status)) <==> status != 200
                    &&& defect == Some(LampError::Brightness { expected, found }) <==> status == 200
                        && found != expected
                },
            }
        }),
{
}

/// An answer that holds a description is right exactly when it is `OK` and the description
/// equals that of the lamp. Otherwise it is told what came.
pub proof fn description_is_judged(answer: Result<(u16, ThingDescription), reqwest::Error>)
    ensures
        ({
            let defect = crate::tester::lamp::active::description_defect(answer);
            match answer {
                Err(error) => defect == Some(LampError::Reqwest(error)),
                Ok((status, found)) => {
                    &&& defect is None <==> status == 200 && crate::lamp::equals_lamp(found)
                    &&& defect == Some(LampError::OkStatus(status)) <==> status != 200
                    &&& defect == Some(LampError::Description(found)) <==> status == 200
                        && !crate::lamp::equals_lamp(found)
                },
            }
        }),
{
}

/// A text begins with `/actions/fade/`.
pub open spec fn below_fade(href: Seq<char>) -> bool {
    href.len() >= 14 && href.take(14) == seq![
        '/',
        'a',
        'c',
        't',
        'i',
        'o',
        'n',
        's',
        '/',
        'f',
        'a',
        'd',
        'e',
        '/',
    ]
}

/// An answer to a started fade is right exactly when it is `CREATED`, tells no error, is
/// running or pending, tells the fade to 100 in two seconds, and is located below
/// `/actions/fade/` without telling of another place. Otherwise the first of these that
/// fails is told.
pub proof fn started_fade_is_judged(
    answer: Result<(u16, Location, ActionResponse<FadeAction>), reqwest::Error>,
)
    ensures
        ({
            let defect = crate::tester::lamp::active::start_defect(answer);
            match answer {
                Err(error) => defect == Some(LampError::Reqwest(error)),
                Ok((status, location, response)) => {
                    let well = status == 201 && response.error is None;
                    let begun = well && (response.status is Running || response.status is Pending);
                    let told = begun && response.output == Some(
                        FadeAction { brightness: 100, duration: 2000 },
                    );
                    let placed = told && (location matches Location::At(href) && below_fade(href@));
                    &&& defect is None <==> placed && (response.href is None || response.href->0@
                        == location->At_0@)
                    &&& defect == Some(LampError::CreatedStatus(status)) <==> status != 201
                    &&& defect == Some(LampError::FadeFailed) <==> status == 201 && response.error
                        is Some
                    &&& defect == Some(LampError::FadeStatus(response.status)) <==> well && (
                    response.status == ActionResponseStatus::Completed || response.status
                        == ActionResponseStatus::Failed)
                    &&& defect == Some(LampError::FadeOutput(response.output)) <==> begun && !told
                    &&& defect == Some(LampError::NoLocation) <==> told && location is Missing
                    &&& defect == Some(LampError::UnreadableLocation) <==> told && location
                        is Unreadable
                    &&& defect == Some(LampError::WrongLocation) <==> told && !placed && location
                        is At
                    &&& defect == Some(LampError::IncoherentLocation) <==> placed && response.href
                        is Some && response.href->0@ != location->At_0@
                },
            }
        }),
{
    if let Ok((_, Location::At(href), _)) = answer {
        lemma_below_fade(href@);
    }
}

proof fn lemma_below_fade(href: Seq<char>)
    ensures
        below_fade(href) <==> ("/actions/fade/"@).is_prefix_of(href),
{
    reveal_strlit("/actions/fade/");
    let prefix = seq!['/', 'a', 'c', 't', 'i', 'o', 'n', 's', '/', 'f', 'a', 'd', 'e', '/'];
    assert("/actions/fade/"@ =~= prefix);
    if href.len() >= 14 {
        assert(href.take(14) =~= href.subrange(0, 14));
    }
}

/// An answer to a query of the started fade is right exactly when it is `OK` and the fade is
/// running or pending. Otherwise it is told what came.
pub proof fn queried_fade_is_judged(
    answer: Result<(u16, ActionResponse<FadeAction>), reqwest::Error>,
)
    ensures
        ({
            let defect = crate::tester::lamp::active::query_defect(answer);
            match answer {
                Err(error) => defect == Some(LampError::Reqwest(error)),
                Ok((status, response)) => {
                    &&& defect is None <==> status == 200 && (response.status is Running
                        || response.status is Pending)
                    &&& defect == Some(LampError::OkStatus(status)) <==> status != 200
                    &&& defect == Some(LampError::FadeOver) <==> status == 200 && (response.status
                        is Completed || response.status is Failed)
                },
            }
        }),
{
}

/// A write is right exactly when it is answered with `NO_CONTENT` and no body.
pub proof fn write_is_judged(answer: Result<u16, IntoFutureError>)
    ensures
        ({
            let judged = crate::tester::lamp::run::written_ok(answer);
            match answer {
                Err(error) => judged == Err::<(), LampError>(LampError::Write(error)),
                Ok(status) => {
                    &&& judged is Ok <==> status == 204
                    &&& judged == Err::<(), LampError>(LampError::NoContentStatus(status))
                        <==> status != 204
                },
            }
        }),
{
}

/// A lamp that fades grows from 25 by 75 in 2000 milliseconds, evenly and rounded down.
pub proof fn brightness_grows_evenly(millis: int)
    ensures
        ({
            let grown = crate::tester::lamp::watch::brightness_at(millis) - 25;
            2000 * grown <= 75 * millis < 2000 * (grown + 1)
        }),
{
    let grown = 75 * millis / 2000;
    assert(2000 * grown <= 75 * millis < 2000 * (grown + 1));
}

/// The brightness of a lamp that fades since a second, give or take a tenth, is right exactly
/// when it is from 58 to 66. Otherwise it is told what came.
pub proof fn halfway_brightness_is_judged(read: Result<(u16, Brightness), reqwest::Error>)
    ensures
        ({
            let judged = crate::tester::lamp::watch::check_of(read);
            match read {
                Err(error) => judged == Err::<(), WatchError>(WatchError::Reqwest(error)),
                Ok((status, found)) => {
                    &&& judged is Ok <==> status == 200 && 58 <= found <= 66
                    &&& judged == Err::<(), WatchError>(WatchError::OkStatus(status)) <==> status
                        != 200
                    &&& judged == Err::<(), WatchError>(WatchError::Brightness(found)) <==> status
                        == 200 && !(58 <= found <= 66)
                },
            }
        }),
{
}

/// An event of a fading lamp is right exactly when it tells, with its time, a temperature
/// above 100 or a brightness from 25 to 100. The end of the events is an error too.
pub proof fn fade_event_is_judged(message: Option<Message>)
    ensures
        ({
            let defect = crate::tester::lamp::watch::event_defect(message);
            match message {
                Some(Message::Overheated { global, data: Overheated(data), timestamp }) => {
                    &&& defect is None <==> data > 100 && timestamp is Some
                    &&& defect == Some(WatchError::OverheatedEvent) <==> data <= 100 || timestamp
                        is None
                },
                Some(Message::Brightness { global, brightness, timestamp }) => {
                    &&& defect is None <==> 25 <= brightness <= 100 && timestamp is Some
                    &&& defect == Some(WatchError::BrightnessEvent) <==> brightness < 25
                        || brightness > 100 || timestamp is None
                },
                Some(Message::Stop) => defect == Some(WatchError::HandlerClosed),
                None => defect == Some(WatchError::HandlerClosed),
            }
        }),
{
}

/// An event after the brightness was set is right exactly when it tells that it is 25, with
/// its time. Otherwise it is told what came.
pub proof fn set_event_is_judged(message: Option<Message>)
    ensures
        ({
            let watch = crate::tester::lamp::run::told_by(message);
            match message {
                Some(Message::Brightness { global, brightness, timestamp }) => {
                    &&& watch == (SetWatch::Watching { told: true }) <==> brightness == 25
                        && timestamp is Some
                    &&& watch == SetWatch::Failed(LampError::BrightnessEvent) <==> brightness != 25
                        || timestamp is None
                },
                Some(message) => watch == SetWatch::Failed(LampError::UnexpectedEvent(message)),
                None => watch == SetWatch::Failed(LampError::StreamClosed),
            }
        }),
{
}

/// What one event adds to what the events told: whether the lamp is overheated, or its last
/// brightness, by the source that told it and by that source alone.
pub proof fn fade_events_are_remembered(events: FadeEvents, message: Message)
    ensures
        ({
            let next = events.with(message);
            match message {
                Message::Overheated { global, .. } => {
                    &&& global ==> next.overheated_global && next.overheated == events.overheated
                    &&& !global ==> next.overheated && next.overheated_global
                        == events.overheated_global
                    &&& next.last_brightness == events.last_brightness
                    &&& next.last_global_brightness == events.last_global_brightness
                },
                Message::Brightness { global, brightness, .. } => {
                    &&& global ==> next.last_global_brightness == Some(brightness)
                        && next.last_brightness == events.last_brightness
                    &&& !global ==> next.last_brightness == Some(brightness)
                        && next.last_global_brightness == events.last_global_brightness
                    &&& next.overheated == events.overheated
                    &&& next.overheated_global == events.overheated_global
                },
                Message::Stop => next == events,
            }
        }),
        events.complete() <==> events.overheated && events.overheated_global
            && events.last_brightness == Some(100u32) && events.last_global_brightness == Some(
            100u32,
        ),
        !FadeEvents::nothing().overheated && !FadeEvents::nothing().overheated_global,
        FadeEvents::nothing().last_brightness is None,
        FadeEvents::nothing().last_global_brightness is None,
{
}

/// The watch over the events ends with the first event that is wrong, with that error, and
/// with the one that completes what is waited for; once it is over it stays so, and events
/// that are missing when the time is over are not forgotten.
pub proof fn event_watch_ends_once(watch: EventWatch, message: Option<Message>)
    ensures
        match watch {
            EventWatch::Watching(events) => {
                &&& watch.timed_out() is TimedOut
                &&& match crate::tester::lamp::watch::event_defect(message) {
                    Some(error) => watch.received(message) == EventWatch::Done(Err(error)),
                    None => {
                        &&& message is Some
                        &&& watch.received(message) == EventWatch::Done(Ok(())) <==> events.with(
                            message->0,
                        ).complete()
                        &&& watch.received(message) == EventWatch::Watching(events.with(message->0))
                            <==> !events.with(message->0).complete()
                    },
                }
            },
            _ => watch.timed_out() == watch && watch.received(message) == watch,
        },
{
}

/// The watch over the polls ends with the first poll that is refused, with that error and
/// what was known; once it is over it stays so. When the time is over, the action must have
/// completed.
pub proof fn poll_watch_ends_once(
    watch: PollWatch,
    action: Option<Result<(u16, ActionResponse<Fade>), reqwest::Error>>,
)
    ensures
        match watch {
            PollWatch::Polling(status) => {
                &&& watch.timed_out() == PollWatch::Done(Ok(())) <==> status is Completed
                &&& watch.timed_out() == PollWatch::Done(Err(WatchError::NotFinished)) <==> !(status
                    is Completed)
                &&& match status.after_poll(action) {
                    Ok(next) => watch.polled(action) == PollWatch::Polling(next),
                    Err(error) => watch.polled(action) == PollWatch::Done(
                        Err(WatchError::Poll(status, error)),
                    ),
                }
            },
            PollWatch::Done(_) => watch.timed_out() == watch && watch.polled(action) == watch,
        },
{
}

/// The test fails for an error.
pub open spec fn fails(next: LampNext, error: LampError) -> bool {
    next == LampNext::Finish(Err(error))
}

/// The test stops for an error.
pub open spec fn stops(next: LampNext, error: LampError) -> bool {
    next == LampNext::Continue(LampState::Stopping(Err(error)), LampAction::Stop)
}

/// Both the write of the brightness and the time for its events are waited for. An error of
/// the write is told before one of the events.
pub proof fn setting_waits_for_both(written: Option<Result<(), LampError>>, watch: SetWatch)
    ensures
        ({
            let next = crate::tester::lamp::run::after_setting(written, watch);
            let over = written is Some && !(watch is Watching);
            &&& !over <==> next == LampNext::Continue(
                LampState::Setting { written, watch },
                LampAction::Wait,
            )
            &&& over ==> match (written->0, watch) {
                (Err(error), _) => fails(next, error),
                (Ok(_), SetWatch::Failed(error)) => fails(next, error),
                (Ok(_), SetWatch::TimedOut { told }) => if told {
                    next == LampNext::Continue(LampState::Rereading, LampAction::GetBrightness)
                } else {
                    fails(next, LampError::NoBrightnessEvent)
                },
                _ => true,
            }
        }),
{
    if let Some(Ok(done)) = written {
        assert(done == ());
    }
}

/// The polls, the brightness and the events of a fading lamp are all waited for. An error of
/// the polls is told before one of the brightness, and that before one of the events. If all
/// is right, the brightness is set to 50 again.
pub proof fn fading_waits_for_all(
    href: String,
    polls: PollWatch,
    check: CheckWatch,
    events: EventWatch,
    action: LampAction,
)
    ensures
        ({
            let next = crate::tester::lamp::run::after_fading(href, polls, check, events, action);
            let over = polls is Done && check is Done && !(events is Watching);
            &&& !over <==> next == LampNext::Continue(
                LampState::Fading { href, polls, check, events },
                action,
            )
            &&& over ==> match (polls->Done_0, check->Done_0, events) {
                (Err(error), _, _) => stops(next, LampError::Watch(error)),
                (Ok(_), Err(error), _) => stops(next, LampError::Watch(error)),
                (Ok(_), Ok(_), EventWatch::Done(Err(error))) => stops(
                    next,
                    LampError::Watch(error),
                ),
                (Ok(_), Ok(_), EventWatch::TimedOut) => stops(next, LampError::MissingEvents),
                (Ok(_), Ok(_), EventWatch::Done(Ok(_))) => next == LampNext::Continue(
                    LampState::Restoring,
                    LampAction::RestoreBrightness(50),
                ),
                (Ok(_), Ok(_), EventWatch::Watching(_)) => true,
            }
        }),
{
    if let EventWatch::Done(Ok(done)) = events {
        assert(done == ());
    }
}

/// While nothing but an answer is waited for, every message fails the test, and so does the
/// end of the messages.
pub proof fn messages_intrude(state: LampState, message: Message)
    ensures
        state is Describing || state is ReadingProps || state is ReadingBrightness || state
            is Rereading ==> {
            &&& state.expects(LampInput::Message(Some(message)))
            &&& state.expects(LampInput::Message(None))
            &&& fails(
                state.after(LampInput::Message(Some(message))),
                LampError::Incoming(IncomingMessageError::UnexpectedMessage(message)),
            )
            &&& fails(
                state.after(LampInput::Message(None)),
                LampError::Incoming(IncomingMessageError::ChannelClosed),
            )
        },
{
}

/// The reads at the beginning, each of which must be right for the next one to follow: the
/// description, the properties, the brightness of 50. Then the brightness is set to 25, for
/// which no event has come yet and the time is 50 milliseconds.
pub proof fn reads_lead_to_setting(
    description: Result<(u16, ThingDescription), reqwest::Error>,
    props: Result<(u16, Props), reqwest::Error>,
    brightness: Result<(u16, Brightness), reqwest::Error>,
)
    ensures
        match crate::tester::lamp::active::description_defect(description) {
            Some(error) => fails(
                LampState::Describing.after(LampInput::Description(description)),
                error,
            ),
            None => LampState::Describing.after(LampInput::Description(description))
                == LampNext::Continue(LampState::ReadingProps, LampAction::GetProps),
        },
        match crate::tester::lamp::active::props_defect(props) {
            Some(error) => fails(LampState::ReadingProps.after(LampInput::Props(props)), error),
            None => LampState::ReadingProps.after(LampInput::Props(props)) == LampNext::Continue(
                LampState::ReadingBrightness,
                LampAction::GetBrightness,
            ),
        },
        match crate::tester::lamp::active::brightness_defect(brightness, 50) {
            Some(error) => fails(
                LampState::ReadingBrightness.after(LampInput::Brightness(brightness)),
                error,
            ),
            None => LampState::ReadingBrightness.after(LampInput::Brightness(brightness))
                == LampNext::Continue(
                LampState::Setting { written: None, watch: SetWatch::Watching { told: false } },
                LampAction::SetBrightness(25, 50),
            ),
        },
{
}

/// While the brightness is set, the write, an event and the end of the time each change what
/// is known of it alone; what was told before the end of the time is kept.
pub proof fn setting_takes_one_input_at_a_time(
    written: Option<Result<(), LampError>>,
    watch: SetWatch,
    answer: Result<u16, IntoFutureError>,
    message: Option<Message>,
)
    ensures
        ({
            let state = LampState::Setting { written, watch };
            &&& state.after(LampInput::Written(answer)) == crate::tester::lamp::run::after_setting(
                Some(crate::tester::lamp::run::written_ok(answer)),
                watch,
            )
            &&& state.after(LampInput::Message(message)) == crate::tester::lamp::run::after_setting(
                written,
                crate::tester::lamp::run::told_by(message),
            )
            &&& watch matches SetWatch::Watching { told } ==> state.after(LampInput::SetOver)
                == crate::tester::lamp::run::after_setting(written, SetWatch::TimedOut { told })
        }),
{
}

/// The brightness is read again, and must be 25. Then a fade to 100 in two seconds is
/// started, queried where it was located, and watched: nothing is known of it, its brightness
/// is not read yet and no event has come. It is polled every 100 milliseconds, its brightness
/// is read after 1000, and it is given 2100.
pub proof fn rereading_leads_to_fading(
    brightness: Result<(u16, Brightness), reqwest::Error>,
    started: Result<(u16, Location, ActionResponse<FadeAction>), reqwest::Error>,
    queried: Result<(u16, ActionResponse<FadeAction>), reqwest::Error>,
    href: String,
)
    ensures
        match crate::tester::lamp::active::brightness_defect(brightness, 25) {
            Some(error) => fails(
                LampState::Rereading.after(LampInput::Brightness(brightness)),
                error,
            ),
            None => LampState::Rereading.after(LampInput::Brightness(brightness))
                == LampNext::Continue(
                LampState::StartingFade,
                LampAction::StartFade(FadeAction { brightness: 100, duration: 2000 }),
            ),
        },
        match crate::tester::lamp::active::start_defect(started) {
            Some(error) => fails(LampState::StartingFade.after(LampInput::Started(started)), error),
            None => started matches Ok((_, Location::At(at), _))
                && LampState::StartingFade.after(LampInput::Started(started)) == LampNext::Continue(
                LampState::QueryingFade { href: at },
                LampAction::QueryFade,
            ),
        },
        ({
            let state = LampState::QueryingFade { href };
            match crate::tester::lamp::active::query_defect(queried) {
                Some(error) => fails(state.after(LampInput::Queried(queried)), error),
                None => state.after(LampInput::Queried(queried)) == LampNext::Continue(
                    LampState::Fading {
                        href,
                        polls: PollWatch::Polling(PolledActionStatus::Unknown),
                        check: CheckWatch::Waiting,
                        events: EventWatch::Watching(
                            FadeEvents {
                                overheated: false,
                                overheated_global: false,
                                last_brightness: None,
                                last_global_brightness: None,
                            },
                        ),
                    },
                    LampAction::WatchFade { period: 100, check: 1000, timeout: 2100 },
                ),
            }
        }),
{
}

/// While the lamp fades, a poll, the end of the polls, the time for the brightness, the
/// brightness, an event and the end of the events each change what is known of it alone.
pub proof fn fading_takes_one_input_at_a_time(
    href: String,
    polls: PollWatch,
    check: CheckWatch,
    events: EventWatch,
    action: Option<Result<(u16, ActionResponse<Fade>), reqwest::Error>>,
    answer: Result<(u16, Brightness), reqwest::Error>,
    message: Option<Message>,
)
    ensures
        ({
            let state = LampState::Fading { href, polls, check, events };
            let wait = LampAction::Wait;
            &&& state.after(LampInput::Polled(action)) == crate::tester::lamp::run::after_fading(
                href,
                polls.polled(action),
                check,
                events,
                wait,
            )
            &&& state.after(LampInput::PollsOver) == crate::tester::lamp::run::after_fading(
                href,
                polls.timed_out(),
                check,
                events,
                wait,
            )
            &&& state.after(LampInput::CheckDue) == crate::tester::lamp::run::after_fading(
                href,
                polls,
                CheckWatch::Reading,
                events,
                LampAction::GetBrightness,
            )
            &&& state.after(LampInput::Brightness(answer)) == crate::tester::lamp::run::after_fading(
                href,
                polls,
                CheckWatch::Done(crate::tester::lamp::watch::check_of(answer)),
                events,
                wait,
            )
            &&& state.after(LampInput::Message(message)) == crate::tester::lamp::run::after_fading(
                href,
                polls,
                check,
                events.received(message),
                wait,
            )
            &&& state.after(LampInput::EventsOver) == crate::tester::lamp::run::after_fading(
                href,
                polls,
                check,
                events.timed_out(),
                wait,
            )
        }),
{
}

/// A brightness that is restored, with whatever status, ends the test well once it is
/// stopped, and a failed write ends it at once. A test that is stopped keeps its outcome.
pub proof fn restoring_leads_to_stopping(
    status: u16,
    error: IntoFutureError,
    result: Result<(), LampError>,
)
    ensures
        LampState::Restoring.after(LampInput::Written(Ok(status))) == LampNext::Continue(
            LampState::Stopping(Ok(())),
            LampAction::Stop,
        ),
        fails(
            LampState::Restoring.after(LampInput::Written(Err(error))),
            LampError::Write(error),
        ),
        LampState::Stopping(result).after(LampInput::Stopped) == LampNext::Finish(result),
{
}

/// What can happen in a state: its answer where a request is open, the end of a time that
/// runs, a message where messages are taken, and the stop where the test stops.
pub proof fn only_what_is_waited_for_happens(state: LampState, input: LampInput)
    ensures
        state.expects(input) <==> match state {
            LampState::Describing => input is Description || input is Message,
            LampState::ReadingProps => input is Props || input is Message,
            LampState::ReadingBrightness => input is Brightness || input is Message,
            LampState::Setting { written, watch } => {
                ||| written is None && input is Written
                ||| watch is Watching && (input is Message || input is SetOver)
            },
            LampState::Rereading => input is Brightness || input is Message,
            LampState::StartingFade => input is Started,
            LampState::QueryingFade { .. } => input is Queried,
            LampState::Fading { polls, check, events, .. } => {
                ||| polls is Polling && (input is Polled || input is PollsOver)
                ||| check is Waiting && input is CheckDue
                ||| check is Reading && input is Brightness
                ||| events is Watching && (input is Message || input is EventsOver)
            },
            LampState::Restoring => input is Written,
            LampState::Stopping(_) => input is Stopped,
        },
        state.takes_messages() <==> state.expects(LampInput::Message(None)),
{
}

/// The description is read where a thing describes itself, all properties at `properties`,
/// the brightness is read and written below that, a fade is posted to `actions/fade`, and
/// then read from where it was located.
pub proof fn requests_go_to_their_endpoints(state: LampState, value: Brightness, millis: u64)
    ensures
        LampAction::GetDescription.target() == Some((Method::Get, ".well-known/wot"@)),
        LampAction::GetProps.target() == Some((Method::Get, "properties"@)),
        LampAction::GetBrightness.target() == Some((Method::Get, "properties/brightness"@)),
        LampAction::SetBrightness(value, millis).target() == Some(
            (Method::Put, "properties/brightness"@),
        ),
        LampAction::RestoreBrightness(value).target() == Some(
            (Method::Put, "properties/brightness"@),
        ),
        forall|fade: FadeAction| #[trigger]
            LampAction::StartFade(fade).target() == Some((Method::Post, "actions/fade"@)),
        LampAction::Wait.target() is None,
        LampAction::Stop.target() is None,
        match state {
            LampState::QueryingFade { href } => state.target_of(LampAction::QueryFade) == Some(
                (Method::Get, href@),
            ),
            LampState::Fading { href, .. } => {
                &&& state.target_of(
                    LampAction::WatchFade { period: 100, check: 1000, timeout: 2100 },
                ) == Some((Method::Get, href@))
                &&& state.target_of(LampAction::GetBrightness)
                    == LampAction::GetBrightness.target()
            },
            _ => {
                &&& state.fade_at() is None
                &&& state.target_of(LampAction::SetBrightness(value, millis)) == Some(
                    (Method::Put, "properties/brightness"@),
                )
                &&& state.target_of(LampAction::GetBrightness)
                    == LampAction::GetBrightness.target()
                &&& state.target_of(LampAction::GetProps) == LampAction::GetProps.target()
                &&& state.target_of(LampAction::GetDescription)
                    == LampAction::GetDescription.target()
                &&& state.target_of(LampAction::RestoreBrightness(value))
                    == LampAction::RestoreBrightness(value).target()
                &&& forall|fade: FadeAction| #[trigger]
                    state.target_of(LampAction::StartFade(fade)) == LampAction::StartFade(
                        fade,
                    ).target()
            },
        },
{
}

} // verus!
