//! What holds of every test of a lamp.

use vstd::prelude::*;

use crate::tester::lamp::run::{
    CheckWatch, LampAction, LampInput, LampNext, LampState, SetWatch,
};
use crate::tester::lamp::watch::{EventWatch, FadeEvents, PollWatch};
use crate::tester::lamp::{
    Fade, FadeAction, Location, Message, Overheated, PolledActionError, PolledActionStatus, Props,
    TransitionError,
};
use crate::tester::{ActionResponse, ActionResponseStatus, IntoFutureError, Timestamp};

verus! {

impl PolledActionStatus {
    /// How far the action has come, as a number.
    pub open spec fn rank(self) -> int {
        match self {
            PolledActionStatus::Unknown => 0,
            PolledActionStatus::Pending { .. } => 1,
            PolledActionStatus::Running { .. } => 2,
            PolledActionStatus::Completed { .. } => 3,
            PolledActionStatus::Failed { .. } => 3,
        }
    }

    /// When the action was requested, as far as it is known.
    pub open spec fn requested(self) -> Option<Timestamp> {
        match self {
            PolledActionStatus::Unknown => None,
            PolledActionStatus::Pending { time_requested } => time_requested,
            PolledActionStatus::Running { time_requested } => time_requested,
            PolledActionStatus::Completed { time_requested, .. } => time_requested,
            PolledActionStatus::Failed { time_requested, .. } => time_requested,
        }
    }
}

/// Two instants are not known to differ.
pub open spec fn may_be_one(known: Option<Timestamp>, told: Option<Timestamp>) -> bool {
    known is Some && told is Some ==> known->0.unix_nanos == told->0.unix_nanos
}

/// Two instants are both missing, or both there and one.
pub open spec fn are_one(known: Option<Timestamp>, told: Option<Timestamp>) -> bool {
    (known is Some <==> told is Some) && may_be_one(known, told)
}

/// An action tells only what belongs to its status: when it ended only once it is over,
/// an error only where it failed, and an output only where it completed.
pub open spec fn in_place(response: ActionResponse<Fade>) -> bool {
    &&& response.time_ended is Some ==> response.status is Completed || response.status is Failed
    &&& response.error is Some ==> response.status is Failed
    &&& response.output is Some ==> response.status is Completed
}

/// An action may tell this after what is known of it: it does not go back, keeps the time
/// of its request, and tells the same of itself once it is over.
pub open spec fn may_follow(status: PolledActionStatus, response: ActionResponse<Fade>) -> bool {
    match status {
        PolledActionStatus::Unknown => true,
        PolledActionStatus::Pending { time_requested } => may_be_one(
            time_requested,
            response.time_requested,
        ),
        PolledActionStatus::Running { time_requested } => !(response.status is Pending)
            && may_be_one(time_requested, response.time_requested),
        PolledActionStatus::Completed { output, time_requested, time_ended } => {
            &&& response.status is Completed
            &&& are_one(time_requested, response.time_requested)
            &&& are_one(time_ended, response.time_ended)
            &&& output is Some <==> response.output is Some
            &&& output is Some ==> {
                &&& output->0.brightness == response.output->0.brightness
                &&& output->0.duration == response.output->0.duration
                &&& are_one(output->0.time_requested, response.output->0.time_requested)
                &&& are_one(output->0.time_completed, response.output->0.time_completed)
            }
        },
        PolledActionStatus::Failed { error, time_requested, time_ended } => {
            &&& response.status is Failed
            &&& are_one(time_requested, response.time_requested)
            &&& are_one(time_ended, response.time_ended)
            &&& crate::tester::problem::same_opt_problem(error, response.error)
        },
    }
}

/// A polled action is accepted exactly when its answer is `OK`, tells only what belongs
/// to its status and may follow what is known. It is then known by what it told, except
/// that one that is still pending, or over already, stays as it was.
pub proof fn polled_action_is_accepted_exactly_when_it_follows(
    status: PolledActionStatus,
    code: u16,
    response: ActionResponse<Fade>,
)
    ensures
        status.after_poll(Some(Ok((code, response)))) is Ok <==> code == 200 && in_place(response)
            && may_follow(status, response),
        status.after_poll(Some(Ok((code, response)))) matches Ok(next) ==> match (
            status,
            response.status,
        ) {
            (PolledActionStatus::Pending { .. }, ActionResponseStatus::Pending) => next == status,
            (PolledActionStatus::Completed { .. }, _) => next == status,
            (PolledActionStatus::Failed { .. }, _) => next == status,
            (_, ActionResponseStatus::Pending) => next == (PolledActionStatus::Pending {
                time_requested: response.time_requested,
            }),
            (_, ActionResponseStatus::Running) => next == (PolledActionStatus::Running {
                time_requested: response.time_requested,
            }),
            (_, ActionResponseStatus::Completed) => next == (PolledActionStatus::Completed {
                output: response.output,
                time_requested: response.time_requested,
                time_ended: response.time_ended,
            }),
            (_, ActionResponseStatus::Failed) => next == (PolledActionStatus::Failed {
                error: response.error,
                time_requested: response.time_requested,
                time_ended: response.time_ended,
            }),
        },
{
}

/// A poll is refused for an error.
pub open spec fn poll_refused(
    status: PolledActionStatus,
    action: Option<Result<(u16, ActionResponse<Fade>), reqwest::Error>>,
    error: PolledActionError,
) -> bool {
    status.after_poll(action) == Err::<PolledActionStatus, PolledActionError>(error)
}

/// The end of the polls, a poll that failed and an answer that is not `OK` are refused as
/// what they are. What does not belong to its status is told next: when a pending or
/// running action ended, its error, its output; the error of a completed action; the
/// output of a failed one.
pub proof fn refused_polls_are_told(
    status: PolledActionStatus,
    error: reqwest::Error,
    code: u16,
    response: ActionResponse<Fade>,
)
    ensures
        poll_refused(status, None, PolledActionError::Finished),
        poll_refused(status, Some(Err(error)), PolledActionError::Polling(error)),
        ({
            let action = Some(Ok::<(u16, ActionResponse<Fade>), reqwest::Error>((code, response)));
            let pending = code == 200 && response.status == ActionResponseStatus::Pending;
            let running = code == 200 && response.status == ActionResponseStatus::Running;
            let ended = response.time_ended is Some;
            let failed = response.error is Some;
            let given = response.output is Some;
            &&& poll_refused(status, action, PolledActionError::Status(code)) <==> code != 200
            &&& poll_refused(status, action, PolledActionError::PendingEnded) <==> pending && ended
            &&& poll_refused(status, action, PolledActionError::PendingError) <==> pending && !ended
                && failed
            &&& poll_refused(status, action, PolledActionError::PendingOutput) <==> pending
                && !ended && !failed && given
            &&& poll_refused(status, action, PolledActionError::RunningEnded) <==> running && ended
            &&& poll_refused(status, action, PolledActionError::RunningError) <==> running && !ended
                && failed
            &&& poll_refused(status, action, PolledActionError::RunningOutput) <==> running
                && !ended && !failed && given
            &&& poll_refused(status, action, PolledActionError::CompletedError) <==> code == 200
                && response.status is Completed && failed
            &&& poll_refused(status, action, PolledActionError::FailedOutput) <==> code == 200
                && response.status is Failed && given
            &&& (status.after_poll(action) matches Err(PolledActionError::Transition(_)))
                <==> code == 200 && in_place(response) && !may_follow(status, response)
        }),
{
}

/// An action that may not follow what is known of it is refused for where it went from and
/// to, or for what changed.
pub proof fn refused_transitions_are_told(
    status: PolledActionStatus,
    response: ActionResponse<Fade>,
)
    requires
        !may_follow(status, response),
    ensures
        status.after_response(response) == Err::<PolledActionStatus, TransitionError>(
            match (status, response.status) {
                (PolledActionStatus::Pending { .. }, ActionResponseStatus::Pending) =>
                    TransitionError::PendingTimeChanged,
                (_, ActionResponseStatus::Pending) => TransitionError::ToPending,
                (PolledActionStatus::Pending { .. }, ActionResponseStatus::Running) =>
                    TransitionError::PendingToRunningTimeChanged,
                (PolledActionStatus::Running { .. }, ActionResponseStatus::Running) =>
                    TransitionError::RunningTimeChanged,
                (_, ActionResponseStatus::Running) => TransitionError::ToRunning,
                (PolledActionStatus::Completed { .. }, ActionResponseStatus::Completed) =>
                    TransitionError::CompletedChanged,
                (PolledActionStatus::Failed { .. }, ActionResponseStatus::Completed) =>
                    TransitionError::FailedToCompleted,
                (_, ActionResponseStatus::Completed) => TransitionError::ToCompletedTimeChanged,
                (PolledActionStatus::Failed { .. }, ActionResponseStatus::Failed) =>
                    TransitionError::FailedChanged,
                (PolledActionStatus::Completed { .. }, ActionResponseStatus::Failed) =>
                    TransitionError::CompletedToFailed,
                (_, ActionResponseStatus::Failed) => TransitionError::ToFailedTimeChanged,
            },
        ),
        in_place(response) ==> poll_refused(
            status,
            Some(Ok((200, response))),
            PolledActionError::Transition(status.after_response(response)->Err_0),
        ),
{
}

/// Two instants are the same wherever they were told, and two fades when they go to the
/// same brightness in the same time and were requested and completed at the same instants.
pub proof fn fades_are_compared_field_by_field(a: Fade, b: Fade)
    ensures
        a.same(b) <==> {
            &&& a.brightness == b.brightness
            &&& a.duration == b.duration
            &&& are_one(a.time_requested, b.time_requested)
            &&& are_one(a.time_completed, b.time_completed)
        },
{
}

/// A polled action never goes back, and takes the status that it tells.
pub proof fn polled_action_never_goes_back(
    status: PolledActionStatus,
    response: ActionResponse<Fade>,
)
    ensures
        status.after_response(response) matches Ok(next) ==> {
            &&& status.rank() <= next.rank()
            &&& match response.status {
                ActionResponseStatus::Pending => next is Pending,
                ActionResponseStatus::Running => next is Running,
                ActionResponseStatus::Completed => next is Completed,
                ActionResponseStatus::Failed => next is Failed,
            }
        },
{
}

/// A polled action that is over stays as it is.
pub proof fn polled_action_that_is_over_stays(
    status: PolledActionStatus,
    response: ActionResponse<Fade>,
)
    requires
        status is Completed || status is Failed,
    ensures
        status.after_response(response) matches Ok(next) ==> next == status,
{
}

/// A polled action may tell the same again, which changes nothing.
pub proof fn polled_action_may_repeat_itself(
    status: PolledActionStatus,
    response: ActionResponse<Fade>,
)
    requires
        response.error matches Some(problem) ==> problem.wf(),
    ensures
        status.after_response(response) matches Ok(next) ==> next.after_response(response) == Ok::<
            PolledActionStatus,
            crate::tester::lamp::TransitionError,
        >(next),
{
    crate::tester::problem::problem_equality_is_reflexive(response.error);
}

/// Two request times that a polled action tells one after the other are the same instant.
pub proof fn polled_action_keeps_its_request_time(
    status: PolledActionStatus,
    response: ActionResponse<Fade>,
)
    requires
        status.requested() is Some,
        response.time_requested is Some,
        status.after_response(response) is Ok,
    ensures
        status.requested()->0.same(response.time_requested->0),
{
}

/// What is known of a fade action after some polls.
pub open spec fn polls_after(
    polls: Seq<Option<Result<(u16, ActionResponse<Fade>), reqwest::Error>>>,
) -> PollWatch
    decreases polls.len(),
{
    if polls.len() == 0 {
        PollWatch::Polling(PolledActionStatus::Unknown)
    } else {
        polls_after(polls.drop_last()).polled(polls.last())
    }
}

/// How far an action has come that tells a status, as a number.
pub open spec fn told_rank(status: ActionResponseStatus) -> int {
    match status {
        ActionResponseStatus::Pending => 1,
        ActionResponseStatus::Running => 2,
        ActionResponseStatus::Completed => 3,
        ActionResponseStatus::Failed => 3,
    }
}

/// A fade that is polled is as expected, once the time is over, exactly when every poll
/// was accepted and the last one told that it is completed. Where every poll was
/// accepted, each had a good answer, and none told of an earlier status than one before
/// it.
pub proof fn fade_is_judged_by_its_polls(
    polls: Seq<Option<Result<(u16, ActionResponse<Fade>), reqwest::Error>>>,
)
    ensures
        polls_after(polls).timed_out() == PollWatch::Done(Ok(())) <==> polls_after(
            polls,
        ) is Polling && polls.len() > 0 && (polls.last() matches Some(Ok((_, response)))
            && response.status is Completed),
        polls_after(polls) matches PollWatch::Polling(status) ==> {
            &&& polls.len() == 0 ==> status is Unknown
            &&& polls.len() > 0 ==> (polls.last() matches Some(Ok((_, response)))
                && status.rank() == told_rank(response.status)
                && (status is Completed <==> response.status is Completed))
            &&& forall|i: int|
                0 <= i < polls.len() ==> ((#[trigger] polls[i]) matches Some(Ok((code, response)))
                    && code == 200 && told_rank(response.status) <= status.rank())
            &&& forall|i: int, j: int|
                0 <= i <= j < polls.len() ==> told_rank((#[trigger] polls[i])->0->Ok_0.1.status)
                    <= told_rank((#[trigger] polls[j])->0->Ok_0.1.status)
        },
        !(polls_after(polls) matches PollWatch::Done(Ok(()))),
    decreases polls.len(),
{
    if polls.len() > 0 {
        let before = polls.drop_last();
        let n = before.len() as int;
        fade_is_judged_by_its_polls(before);
        assert(polls[n] == polls.last());
        assert forall|i: int| 0 <= i < n implies before[i] == #[trigger] polls[i] by {}
        if let (PollWatch::Polling(status), Some(Ok((_, response)))) = (
            polls_after(before),
            polls.last(),
        ) {
            polled_action_never_goes_back(status, response);
            if let PollWatch::Polling(next) = polls_after(polls) {
                assert forall|i: int, j: int| 0 <= i <= j < polls.len() implies told_rank(
                    (#[trigger] polls[i])->0->Ok_0.1.status,
                ) <= told_rank((#[trigger] polls[j])->0->Ok_0.1.status) by {
                    if j < n {
                        assert(before[i] == polls[i] && before[j] == polls[j]);
                    } else if i < n {
                        assert(before[i] == polls[i]);
                    }
                }
            }
        }
    }
}

/// What messages tell of a fading lamp.
pub open spec fn told(messages: Seq<Message>) -> FadeEvents
    decreases messages.len(),
{
    if messages.len() == 0 {
        FadeEvents::nothing()
    } else {
        told(messages.drop_last()).with(messages.last())
    }
}

/// A message tells of an overheated lamp.
pub open spec fn tells_overheated(message: Message, from_all: bool) -> bool {
    message matches Message::Overheated { global, .. } && global == from_all
}

/// One of the two sources tells of an overheated lamp.
pub open spec fn ever_overheated(messages: Seq<Message>, from_all: bool) -> bool {
    exists|i: int| 0 <= i < messages.len() && tells_overheated(#[trigger] messages[i], from_all)
}

/// A message tells a brightness.
pub open spec fn tells_brightness(message: Message, from_all: bool) -> bool {
    message matches Message::Brightness { global, .. } && global == from_all
}

/// The last brightness that one of the two sources tells.
pub open spec fn last_told(messages: Seq<Message>, from_all: bool, brightness: u32) -> bool {
    exists|i: int|
        0 <= i < messages.len() && tells_brightness(#[trigger] messages[i], from_all)
            && messages[i]->brightness == brightness && forall|j: int|
            i < j < messages.len() ==> !tells_brightness(#[trigger] messages[j], from_all)
}

/// What is remembered of the messages of a fading lamp is whether each of the two
/// sources told that it is overheated, and the brightness that each told last.
pub proof fn messages_are_remembered(messages: Seq<Message>)
    ensures
        told(messages).overheated == ever_overheated(messages, false),
        told(messages).overheated_global == ever_overheated(messages, true),
        forall|brightness: u32|
            told(messages).last_brightness == Some(brightness) <==> #[trigger] last_told(
                messages,
                false,
                brightness,
            ),
        forall|brightness: u32|
            told(messages).last_global_brightness == Some(brightness) <==> #[trigger] last_told(
                messages,
                true,
                brightness,
            ),
    decreases messages.len(),
{
    if messages.len() > 0 {
        let before = messages.drop_last();
        let last = messages.last();
        let n = before.len() as int;
        messages_are_remembered(before);
        assert(messages[n] == last);
        assert forall|from_all: bool| #[trigger]
            ever_overheated(messages, from_all) == (ever_overheated(before, from_all)
                || tells_overheated(last, from_all)) by {
            if ever_overheated(before, from_all) {
                let i = choose|i: int|
                    0 <= i < before.len() && tells_overheated(#[trigger] before[i], from_all);
                assert(messages[i] == before[i]);
            }
            if ever_overheated(messages, from_all) {
                let i = choose|i: int|
                    0 <= i < messages.len() && tells_overheated(#[trigger] messages[i], from_all);
                if i < n {
                    assert(before[i] == messages[i]);
                }
            }
        }
        assert forall|from_all: bool, brightness: u32| #[trigger]
            last_told(messages, from_all, brightness) == (if tells_brightness(last, from_all) {
                last->brightness == brightness
            } else {
                last_told(before, from_all, brightness)
            }) by {
            if last_told(messages, from_all, brightness) {
                let i = choose|i: int|
                    0 <= i < messages.len() && tells_brightness(#[trigger] messages[i], from_all)
                        && messages[i]->brightness == brightness && forall|j: int|
                        i < j < messages.len() ==> !tells_brightness(
                            #[trigger] messages[j],
                            from_all,
                        );
                if i < n {
                    assert(before[i] == messages[i]);
                    assert forall|j: int| i < j < before.len() implies !tells_brightness(
                        #[trigger] before[j],
                        from_all,
                    ) by {
                        assert(before[j] == messages[j]);
                    }
                }
            }
            if tells_brightness(last, from_all) && last->brightness == brightness {
                assert(tells_brightness(messages[n], from_all));
            }
            if !tells_brightness(last, from_all) && last_told(before, from_all, brightness) {
                let i = choose|i: int|
                    0 <= i < before.len() && tells_brightness(#[trigger] before[i], from_all)
                        && before[i]->brightness == brightness && forall|j: int|
                        i < j < before.len() ==> !tells_brightness(#[trigger] before[j], from_all);
                assert(messages[i] == before[i]);
                assert forall|j: int| i < j < messages.len() implies !tells_brightness(
                    #[trigger] messages[j],
                    from_all,
                ) by {
                    if j < n {
                        assert(messages[j] == before[j]);
                    }
                }
            }
        }
    }
}

/// What is known of the events of a fading lamp after some messages.
pub open spec fn watch_after(messages: Seq<Message>) -> EventWatch
    decreases messages.len(),
{
    if messages.len() == 0 {
        EventWatch::Watching(FadeEvents::nothing())
    } else {
        watch_after(messages.drop_last()).received(Some(messages.last()))
    }
}

/// A message of a fading lamp: a temperature above 100, or a brightness from 25 to 100,
/// with the time.
pub open spec fn of_fading_lamp(message: Message) -> bool {
    match message {
        Message::Overheated { data: Overheated(data), timestamp, .. } => data > 100 && timestamp
            is Some,
        Message::Brightness { brightness, timestamp, .. } => 25 <= brightness <= 100 && timestamp
            is Some,
        Message::Stop => false,
    }
}

/// All messages are ones of a fading lamp.
pub open spec fn all_valid(messages: Seq<Message>) -> bool {
    forall|i: int| 0 <= i < messages.len() ==> of_fading_lamp(#[trigger] messages[i])
}

/// Both sources told that the lamp is overheated, and both told last that its brightness
/// is 100.
pub open spec fn all_told(messages: Seq<Message>) -> bool {
    &&& ever_overheated(messages, false)
    &&& ever_overheated(messages, true)
    &&& last_told(messages, false, 100)
    &&& last_told(messages, true, 100)
}

/// The first so many messages are ones of a fading lamp and tell all that is waited
/// for.
pub open spec fn complete_after(messages: Seq<Message>, n: int) -> bool {
    0 < n <= messages.len() && all_valid(messages.take(n)) && all_told(messages.take(n))
}

/// The events of a fading lamp are as expected exactly when, up to some message, all are
/// ones of a fading lamp and together tell all that is waited for. More are waited for
/// exactly when all so far are ones of a fading lamp and this is not yet so.
pub proof fn events_are_judged_by_what_they_tell(messages: Seq<Message>)
    ensures
        watch_after(messages) == EventWatch::Done(Ok(())) <==> exists|n: int| #[trigger]
            complete_after(messages, n),
        watch_after(messages) is Watching <==> all_valid(messages) && !exists|n: int| #[trigger]
            complete_after(messages, n),
        watch_after(messages) is Watching ==> watch_after(messages) == EventWatch::Watching(
            told(messages),
        ),
        watch_after(messages) is Watching || watch_after(messages) is Done,
    decreases messages.len(),
{
    if messages.len() > 0 {
        let before = messages.drop_last();
        let last = messages.last();
        let len = messages.len() as int;
        events_are_judged_by_what_they_tell(before);
        assert(messages.take(len) =~= messages);
        assert forall|n: int| 0 < n < len implies #[trigger] complete_after(messages, n)
            == complete_after(before, n) by {
            assert(messages.take(n) =~= before.take(n));
        }
        assert(crate::tester::lamp::watch::event_defect(Some(last)) is None == of_fading_lamp(last));
        messages_are_remembered(messages);
        assert(told(messages).complete() == all_told(messages)) by {
            assert(told(messages).last_brightness == Some(100u32) <==> last_told(
                messages,
                false,
                100,
            ));
            assert(told(messages).last_global_brightness == Some(100u32) <==> last_told(
                messages,
                true,
                100,
            ));
        }
        assert(all_valid(messages) == (all_valid(before) && of_fading_lamp(last))) by {
            assert(messages[len - 1] == last);
            assert forall|i: int| 0 <= i < before.len() implies before[i] == messages[i] by {}
            if all_valid(messages) {
                assert forall|i: int| 0 <= i < before.len() implies of_fading_lamp(
                    #[trigger] before[i],
                ) by {
                    assert(before[i] == messages[i]);
                }
            }
        }
        if exists|n: int| #[trigger] complete_after(before, n) {
            let n = choose|n: int| #[trigger] complete_after(before, n);
            assert(complete_after(messages, n));
        }
        if exists|n: int| #[trigger] complete_after(messages, n) {
            let n = choose|n: int| #[trigger] complete_after(messages, n);
            if n < len {
                assert(complete_after(before, n));
            }
        }
        if complete_after(messages, len) {
            assert(all_valid(messages));
            assert(told(messages).complete());
        }
        if all_valid(messages) && told(messages).complete() {
            assert(complete_after(messages, len));
        }
    } else {
        assert(all_valid(messages));
    }
}

/// Nothing has gone wrong so far.
pub open spec fn on_course(state: LampState) -> bool {
    match state {
        LampState::Setting { written, watch } => {
            &&& written matches Some(result) ==> result is Ok
            &&& !(watch is Failed)
            &&& watch matches SetWatch::TimedOut { told } ==> told
        },
        LampState::Fading { polls, check, events, .. } => {
            &&& polls matches PollWatch::Done(result) ==> result is Ok
            &&& check matches CheckWatch::Done(result) ==> result is Ok
            &&& !(events is TimedOut)
            &&& events matches EventWatch::Done(result) ==> result is Ok
        },
        LampState::Stopping(result) => result is Ok,
        _ => true,
    }
}

/// What happens is what should happen: the answers are right, the brightness that was
/// set is told in time and nothing else, the fade completes in time, and so do the
/// events of it; and no message comes while none may.
pub open spec fn as_expected(state: LampState, input: LampInput) -> bool {
    match (state, input) {
        (_, LampInput::Description(answer)) => answer matches Ok((status, found)) && status == 200
            && crate::lamp::equals_lamp(found),
        (_, LampInput::Props(answer)) => answer == Ok::<(u16, Props), reqwest::Error>(
            (200, Props { brightness: 50, on: true }),
        ),
        (LampState::ReadingBrightness, LampInput::Brightness(answer)) => answer == Ok::<
            (u16, i64),
            reqwest::Error,
        >((200, 50)),
        (LampState::Rereading, LampInput::Brightness(answer)) => answer == Ok::<
            (u16, i64),
            reqwest::Error,
        >((200, 25)),
        (_, LampInput::Brightness(answer)) => answer matches Ok((status, found)) && status == 200
            && 58 <= found <= 66,
        (LampState::Restoring, LampInput::Written(answer)) => answer is Ok,
        (_, LampInput::Written(answer)) => answer == Ok::<u16, IntoFutureError>(204),
        (_, LampInput::Started(answer)) => answer matches Ok((status, location, response))
            && status == 201 && response.error is None && (response.status is Running
            || response.status is Pending) && response.output == Some(
            FadeAction { brightness: 100, duration: 2000 },
        ) && (location matches Location::At(href) && ("/actions/fade/"@).is_prefix_of(href@) && (
        response.href matches Some(body) ==> body@ == href@)),
        (_, LampInput::Queried(answer)) => answer matches Ok((status, response)) && status == 200
            && (response.status is Running || response.status is Pending),
        (LampState::Fading { polls, .. }, LampInput::Polled(action)) => polls matches
            PollWatch::Polling(status) && (action matches Some(Ok((code, response))) && code == 200
            && in_place(response) && may_follow(status, response)),
        (LampState::Fading { polls, .. }, LampInput::PollsOver) => polls matches
            PollWatch::Polling(PolledActionStatus::Completed { .. }),
        (LampState::Setting { .. }, LampInput::Message(message)) => message matches Some(
            Message::Brightness { brightness, timestamp, .. },
        ) && brightness == 25 && timestamp is Some,
        (LampState::Setting { watch, .. }, LampInput::SetOver) => watch matches
            SetWatch::Watching { told } && told,
        (LampState::Fading { .. }, LampInput::Message(message)) => message matches Some(message)
            && of_fading_lamp(message),
        (_, LampInput::Message(_)) => false,
        (_, LampInput::EventsOver) => false,
        _ => true,
    }
}

/// The test of a lamp stays on course, or ends well, exactly as long as everything
/// happens as it should.
pub proof fn fails_exactly_when_something_is_wrong(state: LampState, input: LampInput)
    requires
        state.expects(input),
        on_course(state),
    ensures
        as_expected(state, input) <==> match state.after(input) {
            LampNext::Continue(next, _) => on_course(next),
            LampNext::Finish(result) => result is Ok,
        },
{
}

/// Once something has gone wrong, the test of a lamp does not end well.
pub proof fn failures_are_not_forgotten(state: LampState, input: LampInput)
    requires
        state.expects(input),
        !on_course(state),
    ensures
        match state.after(input) {
            LampNext::Continue(next, _) => !on_course(next),
            LampNext::Finish(result) => result is Err,
        },
{
}

/// The test of a lamp ends well only once it has written the initial brightness and
/// stopped the forwarding of events; and an error that is found while the lamp fades
/// stops it too.
pub proof fn ends_well_only_after_restoring_and_stopping(state: LampState, input: LampInput)
    requires
        state.expects(input),
    ensures
        state.after(input) == LampNext::Finish(Ok(())) ==> state == LampState::Stopping(Ok(())),
        state.after(input) matches LampNext::Continue(next, action) ==> (next is Stopping ==> {
            &&& action == LampAction::Stop
            &&& state is Restoring || state is Fading
            &&& next == LampState::Stopping(Ok(())) ==> state is Restoring
        }),
        state.after(input) matches LampNext::Continue(next, action) ==> (next is Restoring ==> {
            &&& action == LampAction::RestoreBrightness(50)
            &&& state is Fading
        }),
        state is Fading ==> state.after(input) is Continue,
{
}

/// Everything that the test of a lamp does has a request, but for waiting and stopping.
pub proof fn every_request_has_a_target(state: LampState, input: LampInput)
    requires
        state.expects(input),
    ensures
        LampState::Describing.target_of(LampAction::GetDescription) is Some,
        state.after(input) matches LampNext::Continue(next, action) ==> (next.target_of(
            action,
        ) is None <==> action == LampAction::Wait || action == LampAction::Stop),
{
}

/// The fade is found where the answer to its start told, as long as it is asked for.
pub proof fn fade_is_asked_for_where_it_was_located(state: LampState, input: LampInput)
    requires
        state.expects(input),
    ensures
        state.after(input) matches LampNext::Continue(next, _) ==> (next.fade_at() is Some ==> {
            ||| next.fade_at() == state.fade_at()
            ||| input matches LampInput::Started(Ok((_, crate::tester::lamp::Location::At(href), _)))
                && next.fade_at() == Some(href@)
        }),
{
}

/// The outcome of the test of a lamp over a sequence of inputs, if it is over exactly
/// with the last of them.
pub open spec fn outcome(state: LampState, inputs: Seq<LampInput>) -> Option<
    Result<(), crate::tester::lamp::LampError>,
>
    decreases inputs.len(),
{
    if inputs.len() == 0 || !state.expects(inputs[0]) {
        None
    } else {
        match state.after(inputs[0]) {
            LampNext::Continue(next, _) => outcome(next, inputs.drop_first()),
            LampNext::Finish(result) => if inputs.len() == 1 {
                Some(result)
            } else {
                None
            },
        }
    }
}

/// Everything that happens is what should happen.
pub open spec fn all_as_expected(state: LampState, inputs: Seq<LampInput>) -> bool
    decreases inputs.len(),
{
    inputs.len() > 0 ==> {
        &&& as_expected(state, inputs[0])
        &&& state.after(inputs[0]) matches LampNext::Continue(next, _) ==> all_as_expected(
            next,
            inputs.drop_first(),
        )
    }
}

/// A test of a lamp on course ends well exactly when everything that happens until it is
/// over is what should happen. So does a whole one: it starts on course.
pub proof fn passes_exactly_when_all_is_as_expected(state: LampState, inputs: Seq<LampInput>)
    requires
        on_course(state),
        outcome(state, inputs) is Some,
    ensures
        on_course(LampState::Describing),
        outcome(state, inputs) == Some(Ok::<(), crate::tester::lamp::LampError>(()))
            <==> all_as_expected(state, inputs),
    decreases inputs.len(),
{
    let rest = inputs.drop_first();
    fails_exactly_when_something_is_wrong(state, inputs[0]);
    match state.after(inputs[0]) {
        LampNext::Continue(next, _) => {
            assert(outcome(state, inputs) == outcome(next, rest));
            assert(all_as_expected(state, inputs) == (as_expected(state, inputs[0])
                && all_as_expected(next, rest)));
            if on_course(next) {
                passes_exactly_when_all_is_as_expected(next, rest);
            } else {
                fails_once_off_course(next, rest);
            }
        },
        LampNext::Finish(result) => {
            assert(outcome(state, inputs) == Some(result));
            assert(all_as_expected(state, inputs) == as_expected(state, inputs[0]));
            if let Ok(done) = result {
                assert(done == ());
            }
        },
    }
}

/// A test of a lamp that is off course fails, whatever happens until it is over.
pub proof fn fails_once_off_course(state: LampState, inputs: Seq<LampInput>)
    requires
        !on_course(state),
        outcome(state, inputs) is Some,
    ensures
        (outcome(state, inputs)->0) is Err,
    decreases inputs.len(),
{
    failures_are_not_forgotten(state, inputs[0]);
    if let LampNext::Continue(next, _) = state.after(inputs[0]) {
        fails_once_off_course(next, inputs.drop_first());
    }
}

/// An action, unless there is none.
pub open spec fn done(action: LampAction) -> Seq<LampAction> {
    if action == LampAction::Wait {
        Seq::empty()
    } else {
        seq![action]
    }
}

/// What the test of a lamp does over a sequence of inputs.
pub open spec fn actions(state: LampState, inputs: Seq<LampInput>) -> Seq<LampAction>
    decreases inputs.len(),
{
    if inputs.len() == 0 {
        Seq::empty()
    } else {
        match state.after(inputs[0]) {
            LampNext::Continue(next, action) => done(action) + actions(next, inputs.drop_first()),
            LampNext::Finish(_) => Seq::empty(),
        }
    }
}

/// What the test of a lamp still has to do.
pub open spec fn still_to_do(state: LampState) -> Seq<LampAction> {
    let stop = seq![LampAction::Stop];
    let restore = seq![LampAction::RestoreBrightness(50)] + stop;
    let check = seq![LampAction::GetBrightness] + restore;
    let watch = seq![LampAction::WatchFade { period: 100, check: 1000, timeout: 2100 }] + check;
    let query = seq![LampAction::QueryFade] + watch;
    let fade = seq![LampAction::StartFade(FadeAction { brightness: 100, duration: 2000 })] + query;
    let reread = seq![LampAction::GetBrightness] + fade;
    let set = seq![LampAction::SetBrightness(25, 50)] + reread;
    let read = seq![LampAction::GetBrightness] + set;
    match state {
        LampState::Describing => seq![LampAction::GetProps] + read,
        LampState::ReadingProps => read,
        LampState::ReadingBrightness => set,
        LampState::Setting { .. } => reread,
        LampState::Rereading => fade,
        LampState::StartingFade => query,
        LampState::QueryingFade { .. } => watch,
        LampState::Fading { check: CheckWatch::Waiting, .. } => check,
        LampState::Fading { .. } => restore,
        LampState::Restoring => stop,
        LampState::Stopping(_) => Seq::empty(),
    }
}

/// What is done after an input was still to do.
proof fn lemma_done(state: LampState, input: LampInput, next: LampState, action: LampAction)
    requires
        state.expects(input),
        state.after(input) == LampNext::Continue(next, action),
        on_course(next),
    ensures
        still_to_do(state) == done(action) + still_to_do(next),
{
    assert(still_to_do(state) =~= done(action) + still_to_do(next));
}

/// A test of a lamp that ends well has done all that it had to do, in this order, and
/// nothing else.
pub proof fn passes_only_after_doing_everything(state: LampState, inputs: Seq<LampInput>)
    requires
        outcome(state, inputs) == Some(Ok::<(), crate::tester::lamp::LampError>(())),
    ensures
        actions(state, inputs) == still_to_do(state),
    decreases inputs.len(),
{
    match state.after(inputs[0]) {
        LampNext::Continue(next, action) => {
            let rest = inputs.drop_first();
            passes_only_after_doing_everything(next, rest);
            if !on_course(next) {
                fails_once_off_course(next, rest);
            }
            lemma_done(state, inputs[0], next, action);
        },
        LampNext::Finish(_) => {
            ends_well_only_after_restoring_and_stopping(state, inputs[0]);
        },
    }
}

} // verus!
