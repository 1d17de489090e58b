//! The fade action of a lamp, as it is seen by polling it.

use vstd::prelude::*;

use crate::tester::problem::copy_of;
use crate::tester::{
    eq_opt_http_api_problem, ActionResponse, ActionResponseStatus, Problem, Timestamp, OK,
};

verus! {

/// What a fade action tells of itself.
#[derive(Clone, Copy, Debug, Eq)]
pub struct Fade {
    /// The brightness to reach.
    pub brightness: u32,
    /// The duration in milliseconds.
    pub duration: u32,
    /// When it was requested.
    pub time_requested: Option<Timestamp>,
    /// When it was completed.
    pub time_completed: Option<Timestamp>,
}

impl Fade {
    /// The same fade, told at the same instants.
    pub open spec fn same(self, other: Self) -> bool {
        &&& self.brightness == other.brightness
        &&& self.duration == other.duration
        &&& crate::tester::same_opt_time(self.time_requested, other.time_requested)
        &&& crate::tester::same_opt_time(self.time_completed, other.time_completed)
    }
}

/// Both fades are missing, or both are there and the same.
pub open spec fn same_opt_fade(a: Option<Fade>, b: Option<Fade>) -> bool {
    match (a, b) {
        (None, None) => true,
        (Some(a), Some(b)) => a.same(b),
        _ => false,
    }
}

impl PartialEq for Fade {
    fn eq(&self, other: &Self) -> (r: bool) {
        self.brightness == other.brightness && self.duration == other.duration
            && self.time_requested == other.time_requested && self.time_completed
            == other.time_completed
    }
}

impl vstd::std_specs::cmp::PartialEqSpecImpl for Fade {
    open spec fn obeys_eq_spec() -> bool {
        true
    }

    open spec fn eq_spec(&self, other: &Self) -> bool {
        self.same(*other)
    }
}

/// What is known of a polled action.
#[derive(Debug)]
pub enum PolledActionStatus {
    /// Nothing yet.
    Unknown,
    /// It has not started.
    Pending {
        /// When it was requested.
        time_requested: Option<Timestamp>,
    },
    /// It has started.
    Running {
        /// When it was requested.
        time_requested: Option<Timestamp>,
    },
    /// It has ended well.
    Completed {
        /// What it gave.
        output: Option<Fade>,
        /// When it was requested.
        time_requested: Option<Timestamp>,
        /// When it ended.
        time_ended: Option<Timestamp>,
    },
    /// It has ended badly.
    Failed {
        /// What went wrong.
        error: Option<Problem>,
        /// When it was requested.
        time_requested: Option<Timestamp>,
        /// When it ended.
        time_ended: Option<Timestamp>,
    },
}

impl Clone for PolledActionStatus {
    fn clone(&self) -> (r: Self)
        ensures
            match *self {
                PolledActionStatus::Failed { error, time_requested, time_ended } => {
                    &&& r matches PolledActionStatus::Failed {
                        error: copy,
                        time_requested: requested,
                        time_ended: ended,
                    }
                    &&& crate::tester::problem::alike_opt_problem(error, copy)
                    &&& requested == time_requested
                    &&& ended == time_ended
                },
                _ => r == *self,
            },
    {
        match self {
            PolledActionStatus::Unknown => PolledActionStatus::Unknown,
            PolledActionStatus::Pending { time_requested } => PolledActionStatus::Pending {
                time_requested: *time_requested,
            },
            PolledActionStatus::Running { time_requested } => PolledActionStatus::Running {
                time_requested: *time_requested,
            },
            PolledActionStatus::Completed { output, time_requested, time_ended } => {
                PolledActionStatus::Completed {
                    output: *output,
                    time_requested: *time_requested,
                    time_ended: *time_ended,
                }
            },
            PolledActionStatus::Failed { error, time_requested, time_ended } => {
                PolledActionStatus::Failed {
                    error: copy_of(error),
                    time_requested: *time_requested,
                    time_ended: *time_ended,
                }
            },
        }
    }
}

/// Why a polled action cannot have gone from one status to the next.
#[derive(Clone, Copy, Debug, PartialEq, Eq, Structural)]
pub enum TransitionError {
    /// It is still pending, but was requested at another time.
    PendingTimeChanged,
    /// It cannot go back to pending.
    ToPending,
    /// It was pending and runs, but was requested at another time.
    PendingToRunningTimeChanged,
    /// It still runs, but was requested at another time.
    RunningTimeChanged,
    /// It cannot go back to running.
    ToRunning,
    /// It has completed, but was requested at another time.
    ToCompletedTimeChanged,
    /// It had completed, but otherwise.
    CompletedChanged,
    /// It had failed and cannot complete.
    FailedToCompleted,
    /// It has failed, but was requested at another time.
    ToFailedTimeChanged,
    /// It had failed, but otherwise.
    FailedChanged,
    /// It had completed and cannot fail.
    CompletedToFailed,
}

/// Two request times agree unless both are known and differ.
pub open spec fn times_agree(known: Option<Timestamp>, told: Option<Timestamp>) -> bool {
    known is None || told is None || known->0.same(told->0)
}

/// Whether two request times agree.
fn agree(known: Option<Timestamp>, told: Option<Timestamp>) -> (r: bool)
    ensures
        r == times_agree(known, told),
{
    match (known, told) {
        (Some(known), Some(told)) => known == told,
        _ => true,
    }
}

impl Default for PolledActionStatus {
    fn default() -> (r: Self)
        ensures
            r is Unknown,
    {
        PolledActionStatus::Unknown
    }
}

impl PolledActionStatus {
    /// The status after the action is seen pending.
    pub open spec fn to_pending(
        self,
        time_requested: Option<Timestamp>,
    ) -> Result<Self, TransitionError> {
        match self {
            PolledActionStatus::Unknown => Ok(PolledActionStatus::Pending { time_requested }),
            PolledActionStatus::Pending { time_requested: known } => if times_agree(
                known,
                time_requested,
            ) {
                Ok(self)
            } else {
                Err(TransitionError::PendingTimeChanged)
            },
            _ => Err(TransitionError::ToPending),
        }
    }

    /// The status after the action is seen running.
    pub open spec fn to_running(
        self,
        time_requested: Option<Timestamp>,
    ) -> Result<Self, TransitionError> {
        let running = PolledActionStatus::Running { time_requested };
        match self {
            PolledActionStatus::Unknown => Ok(running),
            PolledActionStatus::Pending { time_requested: known } => if times_agree(
                known,
                time_requested,
            ) {
                Ok(running)
            } else {
                Err(TransitionError::PendingToRunningTimeChanged)
            },
            PolledActionStatus::Running { time_requested: known } => if times_agree(
                known,
                time_requested,
            ) {
                Ok(running)
            } else {
                Err(TransitionError::RunningTimeChanged)
            },
            _ => Err(TransitionError::ToRunning),
        }
    }

    /// The status after the action is seen completed.
    pub open spec fn to_completed(
        self,
        output: Option<Fade>,
        time_requested: Option<Timestamp>,
        time_ended: Option<Timestamp>,
    ) -> Result<Self, TransitionError> {
        let completed = PolledActionStatus::Completed { output, time_requested, time_ended };
        match self {
            PolledActionStatus::Unknown => Ok(completed),
            PolledActionStatus::Pending { time_requested: known }
            | PolledActionStatus::Running { time_requested: known } => if times_agree(
                known,
                time_requested,
            ) {
                Ok(completed)
            } else {
                Err(TransitionError::ToCompletedTimeChanged)
            },
            PolledActionStatus::Completed {
                output: known_output,
                time_requested: known_requested,
                time_ended: known_ended,
            } => if same_opt_fade(known_output, output) && crate::tester::same_opt_time(
                known_requested,
                time_requested,
            ) && crate::tester::same_opt_time(known_ended, time_ended) {
                Ok(self)
            } else {
                Err(TransitionError::CompletedChanged)
            },
            PolledActionStatus::Failed { .. } => Err(TransitionError::FailedToCompleted),
        }
    }

    /// The status after the action is seen failed.
    pub open spec fn to_failed(
        self,
        error: Option<Problem>,
        time_requested: Option<Timestamp>,
        time_ended: Option<Timestamp>,
    ) -> Result<Self, TransitionError> {
        let failed = PolledActionStatus::Failed { error, time_requested, time_ended };
        match self {
            PolledActionStatus::Unknown => Ok(failed),
            PolledActionStatus::Pending { time_requested: known }
            | PolledActionStatus::Running { time_requested: known } => if times_agree(
                known,
                time_requested,
            ) {
                Ok(failed)
            } else {
                Err(TransitionError::ToFailedTimeChanged)
            },
            PolledActionStatus::Failed {
                error: known_error,
                time_requested: known_requested,
                time_ended: known_ended,
            } => if crate::tester::problem::same_opt_problem(known_error, error)
                && crate::tester::same_opt_time(known_requested, time_requested)
                && crate::tester::same_opt_time(known_ended, time_ended) {
                Ok(self)
            } else {
                Err(TransitionError::FailedChanged)
            },
            PolledActionStatus::Completed { .. } => Err(TransitionError::CompletedToFailed),
        }
    }

    /// Takes note that the action is pending.
    pub fn transition_to_pending(&mut self, time_requested: Option<Timestamp>) -> (r: Result<
        (),
        TransitionError,
    >)
        ensures
            match old(self).to_pending(time_requested) {
                Ok(next) => r is Ok && *final(self) == next,
                Err(err) => r == Err::<(), TransitionError>(err) && *final(self) == *old(self),
            },
    {
        match &*self {
            PolledActionStatus::Unknown => {
                *self = PolledActionStatus::Pending { time_requested };
                Ok(())
            },
            PolledActionStatus::Pending { time_requested: known } => {
                if agree(*known, time_requested) {
                    Ok(())
                } else {
                    Err(TransitionError::PendingTimeChanged)
                }
            },
            _ => Err(TransitionError::ToPending),
        }
    }

    /// Takes note that the action is running.
    pub fn transition_to_running(&mut self, time_requested: Option<Timestamp>) -> (r: Result<
        (),
        TransitionError,
    >)
        ensures
            match old(self).to_running(time_requested) {
                Ok(next) => r is Ok && *final(self) == next,
                Err(err) => r == Err::<(), TransitionError>(err) && *final(self) == *old(self),
            },
    {
        match &*self {
            PolledActionStatus::Unknown => {
                *self = PolledActionStatus::Running { time_requested };
                Ok(())
            },
            PolledActionStatus::Pending { time_requested: known } => {
                if agree(*known, time_requested) {
                    *self = PolledActionStatus::Running { time_requested };
                    Ok(())
                } else {
                    Err(TransitionError::PendingToRunningTimeChanged)
                }
            },
            PolledActionStatus::Running { time_requested: known } => {
                if agree(*known, time_requested) {
                    *self = PolledActionStatus::Running { time_requested };
                    Ok(())
                } else {
                    Err(TransitionError::RunningTimeChanged)
                }
            },
            _ => Err(TransitionError::ToRunning),
        }
    }

    /// Takes note that the action has completed.
    pub fn transition_to_completed(
        &mut self,
        output: Option<Fade>,
        time_requested: Option<Timestamp>,
        time_ended: Option<Timestamp>,
    ) -> (r: Result<(), TransitionError>)
        ensures
            match old(self).to_completed(output, time_requested, time_ended) {
                Ok(next) => r is Ok && *final(self) == next,
                Err(err) => r == Err::<(), TransitionError>(err) && *final(self) == *old(self),
            },
    {
        match &*self {
            PolledActionStatus::Unknown => {
                *self = PolledActionStatus::Completed { output, time_requested, time_ended };
                Ok(())
            },
            PolledActionStatus::Pending { time_requested: known }
            | PolledActionStatus::Running { time_requested: known } => {
                if agree(*known, time_requested) {
                    *self = PolledActionStatus::Completed { output, time_requested, time_ended };
                    Ok(())
                } else {
                    Err(TransitionError::ToCompletedTimeChanged)
                }
            },
            PolledActionStatus::Completed {
                output: known_output,
                time_requested: known_requested,
                time_ended: known_ended,
            } => {
                if *known_output == output && *known_requested == time_requested && *known_ended
                    == time_ended {
                    Ok(())
                } else {
                    Err(TransitionError::CompletedChanged)
                }
            },
            PolledActionStatus::Failed { .. } => Err(TransitionError::FailedToCompleted),
        }
    }

    /// Takes note that the action has failed.
    pub fn transition_to_failed(
        &mut self,
        error: Option<Problem>,
        time_requested: Option<Timestamp>,
        time_ended: Option<Timestamp>,
    ) -> (r: Result<(), TransitionError>)
        ensures
            match old(self).to_failed(error, time_requested, time_ended) {
                Ok(next) => r is Ok && *final(self) == next,
                Err(err) => r == Err::<(), TransitionError>(err) && *final(self) == *old(self),
            },
    {
        match &*self {
            PolledActionStatus::Unknown => {
                *self = PolledActionStatus::Failed { error, time_requested, time_ended };
                Ok(())
            },
            PolledActionStatus::Pending { time_requested: known }
            | PolledActionStatus::Running { time_requested: known } => {
                if agree(*known, time_requested) {
                    *self = PolledActionStatus::Failed { error, time_requested, time_ended };
                    Ok(())
                } else {
                    Err(TransitionError::ToFailedTimeChanged)
                }
            },
            PolledActionStatus::Failed {
                error: known_error,
                time_requested: known_requested,
                time_ended: known_ended,
            } => {
                if eq_opt_http_api_problem(known_error, &error) && *known_requested
                    == time_requested && *known_ended == time_ended {
                    Ok(())
                } else {
                    Err(TransitionError::FailedChanged)
                }
            },
            PolledActionStatus::Completed { .. } => Err(TransitionError::CompletedToFailed),
        }
    }
}

/// Why the answer to a poll of an action is refused.
#[derive(Debug)]
pub enum PolledActionError {
    /// The poll failed.
    Polling(reqwest::Error),
    /// There are no more polls.
    Finished,
    /// The answer has a status other than `OK`.
    Status(u16),
    /// A pending action tells when it ended.
    PendingEnded,
    /// A pending action tells an error.
    PendingError,
    /// A pending action has an output.
    PendingOutput,
    /// A running action tells when it ended.
    RunningEnded,
    /// A running action tells an error.
    RunningError,
    /// A running action has an output.
    RunningOutput,
    /// A completed action tells an error.
    CompletedError,
    /// A failed action has an output.
    FailedOutput,
    /// The action cannot have come to where it says it is.
    Transition(TransitionError),
}

/// An answer tells only what belongs to its status.
pub open spec fn misplaced_field(response: ActionResponse<Fade>) -> Option<
    PolledActionError,
> {
    match response.status {
        ActionResponseStatus::Pending => if response.time_ended is Some {
            Some(PolledActionError::PendingEnded)
        } else if response.error is Some {
            Some(PolledActionError::PendingError)
        } else if response.output is Some {
            Some(PolledActionError::PendingOutput)
        } else {
            None
        },
        ActionResponseStatus::Running => if response.time_ended is Some {
            Some(PolledActionError::RunningEnded)
        } else if response.error is Some {
            Some(PolledActionError::RunningError)
        } else if response.output is Some {
            Some(PolledActionError::RunningOutput)
        } else {
            None
        },
        ActionResponseStatus::Completed => if response.error is Some {
            Some(PolledActionError::CompletedError)
        } else {
            None
        },
        ActionResponseStatus::Failed => if response.output is Some {
            Some(PolledActionError::FailedOutput)
        } else {
            None
        },
    }
}

impl PolledActionStatus {
    /// The status after an answer that tells only what belongs to its status.
    pub open spec fn after_response(self, response: ActionResponse<Fade>) -> Result<
        Self,
        TransitionError,
    > {
        match response.status {
            ActionResponseStatus::Pending => self.to_pending(response.time_requested),
            ActionResponseStatus::Running => self.to_running(response.time_requested),
            ActionResponseStatus::Completed => self.to_completed(
                response.output,
                response.time_requested,
                response.time_ended,
            ),
            ActionResponseStatus::Failed => self.to_failed(
                response.error,
                response.time_requested,
                response.time_ended,
            ),
        }
    }

    /// The status after a poll.
    pub open spec fn after_poll(
        self,
        action: Option<Result<(u16, ActionResponse<Fade>), reqwest::Error>>,
    ) -> Result<Self, PolledActionError> {
        match action {
            None => Err(PolledActionError::Finished),
            Some(Err(err)) => Err(PolledActionError::Polling(err)),
            Some(Ok((status, response))) => if status != OK {
                Err(PolledActionError::Status(status))
            } else {
                match misplaced_field(response) {
                    Some(err) => Err(err),
                    None => match self.after_response(response) {
                        Ok(next) => Ok(next),
                        Err(err) => Err(PolledActionError::Transition(err)),
                    },
                }
            },
        }
    }
}

/// Takes note of the outcome of a poll.
pub fn handle_next_polled_action(
    action: Option<Result<(u16, ActionResponse<Fade>), reqwest::Error>>,
    action_status: &mut PolledActionStatus,
) -> (r: Result<(), PolledActionError>)
    ensures
        match old(action_status).after_poll(action) {
            Ok(next) => r is Ok && *final(action_status) == next,
            Err(err) => r == Err::<(), PolledActionError>(err) && *final(action_status) == *old(
                action_status,
            ),
        },
{
    let (status, response): (u16, ActionResponse<Fade>) = match action {
        Some(Ok(answer)) => answer,
        Some(Err(err)) => {
            return Err(PolledActionError::Polling(err));
        },
        None => {
            return Err(PolledActionError::Finished);
        },
    };
    if status != OK {
        return Err(PolledActionError::Status(status));
    }
    let transition: Result<(), TransitionError> = match response.status {
        ActionResponseStatus::Pending => {
            if response.time_ended.is_some() {
                return Err(PolledActionError::PendingEnded);
            }
            if response.error.is_some() {
                return Err(PolledActionError::PendingError);
            }
            if response.output.is_some() {
                return Err(PolledActionError::PendingOutput);
            }
            action_status.transition_to_pending(response.time_requested)
        },
        ActionResponseStatus::Running => {
            if response.time_ended.is_some() {
                return Err(PolledActionError::RunningEnded);
            }
            if response.error.is_some() {
                return Err(PolledActionError::RunningError);
            }
            if response.output.is_some() {
                return Err(PolledActionError::RunningOutput);
            }
            action_status.transition_to_running(response.time_requested)
        },
        ActionResponseStatus::Completed => {
            if response.error.is_some() {
                return Err(PolledActionError::CompletedError);
            }
            action_status.transition_to_completed(
                response.output,
                response.time_requested,
                response.time_ended,
            )
        },
        ActionResponseStatus::Failed => {
            if response.output.is_some() {
                return Err(PolledActionError::FailedOutput);
            }
            action_status.transition_to_failed(
                response.error,
                response.time_requested,
                response.time_ended,
            )
        },
    };
    match transition {
        Ok(()) => Ok(()),
        Err(err) => Err(PolledActionError::Transition(err)),
    }
}

} // verus!
