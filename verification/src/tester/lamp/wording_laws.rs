//! How what is wrong with a lamp is worded.

use vstd::prelude::*;

use crate::tester::lamp::{
    FadeAction, LampError, PolledActionError, Props, TransitionError, WatchError,
};
use crate::tester::{ActionResponseStatus, IntoFutureError};

verus! {

/// A field that does not belong to the status of an action is named with it; that of a failed
/// action is named as that of a running one is.
pub proof fn misplaced_fields_are_named(before: Seq<char>)
    ensures
        PolledActionError::PendingEnded.described(before) == "lamp fade action in a "@ + "pending"@
            + " state cannot have "@ + "a time_ended"@ + " field"@,
        PolledActionError::PendingError.described(before) == "lamp fade action in a "@ + "pending"@
            + " state cannot have "@ + "an error"@ + " field"@,
        PolledActionError::PendingOutput.described(before) == "lamp fade action in a "@ + "pending"@
            + " state cannot have "@ + "an output"@ + " field"@,
        PolledActionError::RunningEnded.described(before) == "lamp fade action in a "@ + "running"@
            + " state cannot have "@ + "a time_ended"@ + " field"@,
        PolledActionError::RunningError.described(before) == "lamp fade action in a "@ + "running"@
            + " state cannot have "@ + "an error"@ + " field"@,
        PolledActionError::RunningOutput.described(before) == "lamp fade action in a "@ + "running"@
            + " state cannot have "@ + "an output"@ + " field"@,
        PolledActionError::CompletedError.described(before) == "lamp fade action in a "@
            + "completed"@ + " state cannot have "@ + "an error"@ + " field"@,
        PolledActionError::FailedOutput.described(before) == "lamp fade action in a "@ + "running"@
            + " state cannot have "@ + "an output"@ + " field"@,
{
    assert(PolledActionError::PendingEnded.described(before) == "lamp fade action in a "@
        + "pending"@ + " state cannot have "@ + "a time_ended"@ + " field"@) by {
        reveal_strlit("lamp fade action in a pending state cannot have a time_ended field");
        reveal_strlit("lamp fade action in a ");
        reveal_strlit("pending");
        reveal_strlit(" state cannot have ");
        reveal_strlit("a time_ended");
        reveal_strlit(" field");
    }
    assert(PolledActionError::PendingError.described(before) == "lamp fade action in a "@
        + "pending"@ + " state cannot have "@ + "an error"@ + " field"@) by {
        reveal_strlit("lamp fade action in a pending state cannot have an error field");
        reveal_strlit("lamp fade action in a ");
        reveal_strlit("pending");
        reveal_strlit(" state cannot have ");
        reveal_strlit("an error");
        reveal_strlit(" field");
    }
    assert(PolledActionError::PendingOutput.described(before) == "lamp fade action in a "@
        + "pending"@ + " state cannot have "@ + "an output"@ + " field"@) by {
        reveal_strlit("lamp fade action in a pending state cannot have an output field");
        reveal_strlit("lamp fade action in a ");
        reveal_strlit("pending");
        reveal_strlit(" state cannot have ");
        reveal_strlit("an output");
        reveal_strlit(" field");
    }
    assert(PolledActionError::RunningEnded.described(before) == "lamp fade action in a "@
        + "running"@ + " state cannot have "@ + "a time_ended"@ + " field"@) by {
        reveal_strlit("lamp fade action in a running state cannot have a time_ended field");
        reveal_strlit("lamp fade action in a ");
        reveal_strlit("running");
        reveal_strlit(" state cannot have ");
        reveal_strlit("a time_ended");
        reveal_strlit(" field");
    }
    assert(PolledActionError::RunningError.described(before) == "lamp fade action in a "@
        + "running"@ + " state cannot have "@ + "an error"@ + " field"@) by {
        reveal_strlit("lamp fade action in a running state cannot have an error field");
        reveal_strlit("lamp fade action in a ");
        reveal_strlit("running");
        reveal_strlit(" state cannot have ");
        reveal_strlit("an error");
        reveal_strlit(" field");
    }
    assert(PolledActionError::RunningOutput.described(before) == "lamp fade action in a "@
        + "running"@ + " state cannot have "@ + "an output"@ + " field"@) by {
        reveal_strlit("lamp fade action in a running state cannot have an output field");
        reveal_strlit("lamp fade action in a ");
        reveal_strlit("running");
        reveal_strlit(" state cannot have ");
        reveal_strlit("an output");
        reveal_strlit(" field");
    }
    assert(PolledActionError::CompletedError.described(before) == "lamp fade action in a "@
        + "completed"@ + " state cannot have "@ + "an error"@ + " field"@) by {
        reveal_strlit("lamp fade action in a completed state cannot have an error field");
        reveal_strlit("lamp fade action in a ");
        reveal_strlit("completed");
        reveal_strlit(" state cannot have ");
        reveal_strlit("an error");
        reveal_strlit(" field");
    }
    assert(PolledActionError::FailedOutput.described(before) == "lamp fade action in a "@
        + "running"@ + " state cannot have "@ + "an output"@ + " field"@) by {
        reveal_strlit("lamp fade action in a running state cannot have an output field");
        reveal_strlit("lamp fade action in a ");
        reveal_strlit("running");
        reveal_strlit(" state cannot have ");
        reveal_strlit("an output");
        reveal_strlit(" field");
    }
}

/// A transition that cannot be is named by the statuses that it goes between, and by what
/// changed where that is why.
pub proof fn refused_transitions_are_named(before: Seq<char>)
    ensures
        TransitionError::ToPending.described(before) == "invalid transition from "@ + before
            + " to Pending"@,
        TransitionError::ToRunning.described(before) == "invalid transition from "@ + before
            + " to Running"@,
        forall|error: TransitionError| #[trigger] PolledActionError::Transition(error).described(before) == error.described(before),
        TransitionError::PendingToRunningTimeChanged.described(before) == "invalid transition from "@
            + "Pending"@ + " to "@ + "Running"@ + " with a changing request time"@,
        TransitionError::ToCompletedTimeChanged.described(before) == "invalid transition from "@
            + "Pending/Running"@ + " to "@ + "Completed"@ + " with a changing request time"@,
        TransitionError::ToFailedTimeChanged.described(before) == "invalid transition from "@
            + "Pending/Running"@ + " to "@ + "Failed"@ + " with a changing request time"@,
        TransitionError::FailedToCompleted.described(before) == "invalid transition from "@
            + "Failed"@ + " to "@ + "Completed"@,
        TransitionError::CompletedToFailed.described(before) == "invalid transition from "@
            + "Completed"@ + " to "@ + "Failed"@,
        TransitionError::PendingTimeChanged.described(before) == "invalid "@ + "Pending"@
            + " non-transition"@ + " with a changing request time"@,
        TransitionError::RunningTimeChanged.described(before) == "invalid "@ + "Running"@
            + " non-transition"@ + " with a changing request time"@,
        TransitionError::CompletedChanged.described(before) == "invalid "@ + "Completed"@
            + " non-transition"@ + " with changing fields"@,
        TransitionError::FailedChanged.described(before) == "invalid "@ + "Failed"@
            + " non-transition"@ + " with changing fields"@,
{
    assert(TransitionError::PendingToRunningTimeChanged.described(before) == "invalid transition from "@
        + "Pending"@ + " to "@ + "Running"@ + " with a changing request time"@) by {
        reveal_strlit("invalid transition from Pending to Running with a changing request time");
        reveal_strlit("invalid transition from ");
        reveal_strlit("Pending");
        reveal_strlit(" to ");
        reveal_strlit("Running");
        reveal_strlit(" with a changing request time");
    }
    assert(TransitionError::ToCompletedTimeChanged.described(before) == "invalid transition from "@
        + "Pending/Running"@ + " to "@ + "Completed"@ + " with a changing request time"@) by {
        reveal_strlit("invalid transition from Pending/Running to Completed with a changing request time");
        reveal_strlit("invalid transition from ");
        reveal_strlit("Pending/Running");
        reveal_strlit(" to ");
        reveal_strlit("Completed");
        reveal_strlit(" with a changing request time");
    }
    assert(TransitionError::ToFailedTimeChanged.described(before) == "invalid transition from "@
        + "Pending/Running"@ + " to "@ + "Failed"@ + " with a changing request time"@) by {
        reveal_strlit("invalid transition from Pending/Running to Failed with a changing request time");
        reveal_strlit("invalid transition from ");
        reveal_strlit("Pending/Running");
        reveal_strlit(" to ");
        reveal_strlit("Failed");
        reveal_strlit(" with a changing request time");
    }
    assert(TransitionError::FailedToCompleted.described(before) == "invalid transition from "@
        + "Failed"@ + " to "@ + "Completed"@) by {
        reveal_strlit("invalid transition from Failed to Completed");
        reveal_strlit("invalid transition from ");
        reveal_strlit("Failed");
        reveal_strlit(" to ");
        reveal_strlit("Completed");
    }
    assert(TransitionError::CompletedToFailed.described(before) == "invalid transition from "@
        + "Completed"@ + " to "@ + "Failed"@) by {
        reveal_strlit("invalid transition from Completed to Failed");
        reveal_strlit("invalid transition from ");
        reveal_strlit("Completed");
        reveal_strlit(" to ");
        reveal_strlit("Failed");
    }
    assert(TransitionError::PendingTimeChanged.described(before) == "invalid "@ + "Pending"@
        + " non-transition"@ + " with a changing request time"@) by {
        reveal_strlit("invalid Pending non-transition with a changing request time");
        reveal_strlit("invalid ");
        reveal_strlit("Pending");
        reveal_strlit(" non-transition");
        reveal_strlit(" with a changing request time");
    }
    assert(TransitionError::RunningTimeChanged.described(before) == "invalid "@ + "Running"@
        + " non-transition"@ + " with a changing request time"@) by {
        reveal_strlit("invalid Running non-transition with a changing request time");
        reveal_strlit("invalid ");
        reveal_strlit("Running");
        reveal_strlit(" non-transition");
        reveal_strlit(" with a changing request time");
    }
    assert(TransitionError::CompletedChanged.described(before) == "invalid "@ + "Completed"@
        + " non-transition"@ + " with changing fields"@) by {
        reveal_strlit("invalid Completed non-transition with changing fields");
        reveal_strlit("invalid ");
        reveal_strlit("Completed");
        reveal_strlit(" non-transition");
        reveal_strlit(" with changing fields");
    }
    assert(TransitionError::FailedChanged.described(before) == "invalid "@ + "Failed"@
        + " non-transition"@ + " with changing fields"@) by {
        reveal_strlit("invalid Failed non-transition with changing fields");
        reveal_strlit("invalid ");
        reveal_strlit("Failed");
        reveal_strlit(" non-transition");
        reveal_strlit(" with changing fields");
    }
}

/// A transport error that an error of the lamp holds, itself or in what it holds, is the one
/// that its text is made with; where it holds none, there is none.
pub proof fn held_transport_errors_are_shown(error: LampError, held: reqwest::Error)
    ensures
        error.transport() == Some(held) <==> match error {
            LampError::Reqwest(error) => error == held,
            LampError::Write(IntoFutureError::Reqwest(error)) => error == held,
            LampError::Watch(WatchError::Reqwest(error)) => error == held,
            _ => false,
        },
        forall|watch: WatchError| #[trigger]
            watch.transport() == LampError::Watch(watch).transport(),
{
}

/// An error of the lamp is well-formed exactly when a status that it holds, itself or in what
/// it holds, is from 100 to 999.
pub proof fn held_statuses_are_in_range(error: LampError)
    ensures
        error.wf() <==> match error {
            LampError::OkStatus(status) => 100 <= status < 1000,
            LampError::NoContentStatus(status) => 100 <= status < 1000,
            LampError::CreatedStatus(status) => 100 <= status < 1000,
            LampError::Watch(WatchError::OkStatus(status)) => 100 <= status < 1000,
            LampError::Watch(WatchError::Poll(_, PolledActionError::Status(status))) => 100
                <= status < 1000,
            _ => true,
        },
        forall|watch: WatchError| #[trigger] watch.wf() == LampError::Watch(watch).wf(),
{
}

/// An answer of a wrong status is shown with the status that was due and the one that came.
pub proof fn wrong_statuses_are_shown(
    status: u16,
    reqwest: Seq<char>,
    lamp: Seq<char>,
    held: Seq<char>,
)
    ensures
        ({
            let shown = crate::trusted::status_phrase(status);
            let got = " status code, got "@;
            &&& LampError::OkStatus(status).described(reqwest, lamp, held) == "Expected "@ + "OK"@
                + got + shown
            &&& LampError::NoContentStatus(status).described(reqwest, lamp, held) == "Expected "@
                + "NO_CONTENT"@ + got + shown
            &&& LampError::CreatedStatus(status).described(reqwest, lamp, held) == "Expected "@
                + "CREATED"@ + got + shown
            &&& WatchError::OkStatus(status).described(reqwest, held)
                == LampError::OkStatus(status).described(reqwest, lamp, held)
            &&& PolledActionError::Status(status).described(held)
                == "lamp fade action poller got the status code "@ + shown + " instead of OK"@
        }),
{
    reveal_strlit("Expected ");
    reveal_strlit("OK");
    reveal_strlit("NO_CONTENT");
    reveal_strlit("CREATED");
    reveal_strlit(" status code, got ");
    reveal_strlit("Expected OK status code, got ");
    reveal_strlit("Expected NO_CONTENT status code, got ");
    reveal_strlit("Expected CREATED status code, got ");
    let got = " status code, got "@;
    assert("Expected OK status code, got "@ =~= "Expected "@ + "OK"@ + got);
    assert("Expected NO_CONTENT status code, got "@ =~= "Expected "@ + "NO_CONTENT"@ + got);
    assert("Expected CREATED status code, got "@ =~= "Expected "@ + "CREATED"@ + got);
}

/// A wrong brightness is shown with the one that was expected, and the wrong one half-way with
/// those between which it was expected.
pub proof fn wrong_brightness_is_shown(
    expected: i64,
    found: i64,
    reqwest: Seq<char>,
    lamp: Seq<char>,
    held: Seq<char>,
)
    ensures
        (LampError::Brightness { expected, found }).described(reqwest, lamp, held)
            == "Invalid lamp brightness. Expected "@ + crate::text::signed_decimal(expected as int)
            + ", got "@ + crate::text::signed_decimal(found as int),
        WatchError::Brightness(found).described(reqwest, held)
            == "Invalid lamp brightness after 1s of fade. Expected between "@
            + crate::text::signed_decimal(58) + " and "@ + crate::text::signed_decimal(66)
            + ", got "@ + crate::text::signed_decimal(found as int),
{
}

/// Wrong properties and a wrong fade are shown with those that were expected: the lamp on at
/// 50, and a fade to 100 in 2000 milliseconds.
pub proof fn wrong_properties_and_fades_are_shown(
    props: Props,
    fade: Option<FadeAction>,
    reqwest: Seq<char>,
    lamp: Seq<char>,
    held: Seq<char>,
)
    ensures
        LampError::Props(props).described(reqwest, lamp, held) == "Invalid lamp props. Expected:\n"@
            + crate::tester::lamp::message::shown_props(Props { brightness: 50, on: true })
            + "\nObtained:\n"@ + crate::tester::lamp::message::shown_props(props),
        crate::tester::lamp::message::shown_props(props) == "Props {\n    brightness: "@
            + crate::text::signed_decimal(props.brightness as int) + ",\n    on: "@ + (if props.on {
            "true"@
        } else {
            "false"@
        }) + ",\n}"@,
        LampError::FadeOutput(fade).described(reqwest, lamp, held)
            == "Invalid lamp fade action response. Expected output "@
            + crate::tester::lamp::message::shown_fade(
            FadeAction { brightness: 100, duration: 2000 },
        ) + ", got "@ + (if fade is Some {
            "Some("@ + crate::tester::lamp::message::shown_fade(fade->0) + ")"@
        } else {
            "None"@
        }),
        fade is Some ==> crate::tester::lamp::message::shown_fade(fade->0)
            == "FadeAction { brightness: "@ + crate::text::decimal((fade->0).brightness as nat)
            + ", duration: "@ + crate::text::decimal((fade->0).duration as nat) + " }"@,
{
}

/// What an error of the lamp only passes on is shown as it is: a transport error, a failed
/// write, a message that intruded, and what went wrong while the lamp faded.
pub proof fn passed_on_errors_are_shown(
    error: LampError,
    reqwest: Seq<char>,
    lamp: Seq<char>,
    held: Seq<char>,
)
    ensures
        match error {
            LampError::Reqwest(_) => error.described(reqwest, lamp, held) == reqwest,
            LampError::Write(write) => error.described(reqwest, lamp, held) == write.described(
                reqwest,
            ),
            LampError::Incoming(incoming) => error.described(reqwest, lamp, held)
                == incoming.described(held),
            LampError::Description(_) => error.described(reqwest, lamp, held)
                == "Invalid lamp. Expected:\n"@ + lamp + "\nObtained:\n"@ + held,
            LampError::UnexpectedEvent(_) => error.described(reqwest, lamp, held)
                == "unexpected event from lamp when setting brightness: "@ + held,
            LampError::FadeStatus(status) => error.described(reqwest, lamp, held)
                == "Invalid lamp fade action response. Expected status \"running\" or \"pending\", received "@
                + status.name(),
            LampError::Watch(WatchError::Reqwest(_)) => error.described(reqwest, lamp, held)
                == "error while waiting for lamp events: "@ + reqwest,
            LampError::Watch(WatchError::Poll(_, poll)) => error.described(reqwest, lamp, held)
                == "error while waiting for lamp events: "@ + poll.described(held),
            LampError::Watch(watch) => error.described(reqwest, lamp, held)
                == "error while waiting for lamp events: "@ + watch.described(reqwest, held),
            _ => true,
        },
{
}

/// Every status of an action is shown under a name of its own.
pub proof fn statuses_have_their_names(a: ActionResponseStatus, b: ActionResponseStatus)
    ensures
        a.name() == b.name() ==> a == b,
        ActionResponseStatus::Pending.name() == "Pending"@,
        ActionResponseStatus::Running.name() == "Running"@,
        ActionResponseStatus::Completed.name() == "Completed"@,
        ActionResponseStatus::Failed.name() == "Failed"@,
{
    reveal_strlit("Pending");
    reveal_strlit("Running");
    reveal_strlit("Completed");
    reveal_strlit("Failed");
    assert("Pending"@[0] == 'P' && "Running"@[0] == 'R');
    assert("Completed"@[0] == 'C' && "Failed"@[0] == 'F');
}

} // verus!
