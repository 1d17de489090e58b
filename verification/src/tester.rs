//! What a tester asks of a thing, and how it judges the answers.

use vstd::prelude::*;

pub mod incoming;
pub mod lamp;
pub mod light_emitter;
pub mod on_off_switch;
pub mod poller;
pub mod problem;
pub mod property;
pub mod request;

pub use incoming::{check_no_incoming_messages, IncomingMessageError, Race};
pub use problem::{eq_opt_http_api_problem, Problem};
pub use property::{
    test_property, PropertyAnswer, PropertyCall, PropertyNext, PropertyStage, PropertyTest,
    TestPropertyError,
};
pub use request::{
    description_endpoint, empty_answer, request_url, IntoFutureError, Method,
};

verus! {

/// The status of an answer with a body.
pub const OK: u16 = 200;

/// The status of an answer to a started action.
pub const CREATED: u16 = 201;

/// The status of an answer to a written property.
pub const NO_CONTENT: u16 = 204;

/// An instant, and the offset from UTC at which it was told.
#[derive(Clone, Copy, Debug, Eq)]
pub struct Timestamp {
    /// The nanoseconds since the Unix epoch.
    pub unix_nanos: i128,
    /// The offset from UTC in seconds, positive to the east.
    pub offset_seconds: i32,
}

impl Timestamp {
    /// The same instant, at whatever offset it was told.
    pub open spec fn same(self, other: Self) -> bool {
        self.unix_nanos == other.unix_nanos
    }
}

/// Both instants are missing, or both are there and the same.
pub open spec fn same_opt_time(a: Option<Timestamp>, b: Option<Timestamp>) -> bool {
    match (a, b) {
        (None, None) => true,
        (Some(a), Some(b)) => a.same(b),
        _ => false,
    }
}

impl PartialEq for Timestamp {
    fn eq(&self, other: &Self) -> (r: bool) {
        self.unix_nanos == other.unix_nanos
    }
}

impl vstd::std_specs::cmp::PartialEqSpecImpl for Timestamp {
    open spec fn obeys_eq_spec() -> bool {
        true
    }

    open spec fn eq_spec(&self, other: &Self) -> bool {
        self.same(*other)
    }
}

/// How far an action has come.
#[derive(Clone, Copy, Debug, Hash, PartialEq, Eq, Structural)]
pub enum ActionResponseStatus {
    /// It has not started.
    Pending,
    /// It has started.
    Running,
    /// It has ended well.
    Completed,
    /// It has ended badly.
    Failed,
}

impl ActionResponseStatus {
    /// The name of the status.
    pub open spec fn name(self) -> Seq<char> {
        match self {
            ActionResponseStatus::Pending => "Pending"@,
            ActionResponseStatus::Running => "Running"@,
            ActionResponseStatus::Completed => "Completed"@,
            ActionResponseStatus::Failed => "Failed"@,
        }
    }

    /// The name of the status.
    pub fn show(self) -> (r: &'static str)
        ensures
            r@ == self.name(),
    {
        match self {
            ActionResponseStatus::Pending => "Pending",
            ActionResponseStatus::Running => "Running",
            ActionResponseStatus::Completed => "Completed",
            ActionResponseStatus::Failed => "Failed",
        }
    }
}

/// What a thing tells of an action.
#[derive(Debug)]
pub struct ActionResponse<T> {
    /// How far it has come.
    pub status: ActionResponseStatus,
    /// What it gives.
    pub output: Option<T>,
    /// What went wrong.
    pub error: Option<Problem>,
    /// Where to ask for it.
    pub href: Option<String>,
    /// When it was requested.
    pub time_requested: Option<Timestamp>,
    /// When it ended.
    pub time_ended: Option<Timestamp>,
}

impl<T: Clone> Clone for ActionResponse<T> {
    fn clone(&self) -> (r: Self)
        ensures
            r.status == self.status,
            match (self.output, r.output) {
                (None, None) => true,
                (Some(output), Some(copy)) => cloned(output, copy),
                _ => false,
            },
            crate::tester::problem::alike_opt_problem(self.error, r.error),
            r.href == self.href,
            r.time_requested == self.time_requested,
            r.time_ended == self.time_ended,
    {
        ActionResponse {
            status: self.status,
            output: self.output.clone(),
            error: problem::copy_of(&self.error),
            href: self.href.clone(),
            time_requested: self.time_requested,
            time_ended: self.time_ended,
        }
    }
}

} // verus!
