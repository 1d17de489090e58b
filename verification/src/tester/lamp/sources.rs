//! One stream out of the four sources of lamp events.

use vstd::prelude::*;

use crate::tester::lamp::EventType;

verus! {

/// What a source answers when it is polled.
#[derive(Debug)]
pub enum SourcePoll<T> {
    /// It hands something out or, where there is nothing, is at its end.
    Ready(Option<T>),
    /// It has nothing yet.
    Pending,
}

/// The sources in the order in which they are polled.
pub open spec fn polling_order() -> Seq<EventType> {
    seq![EventType::Event, EventType::Overheat, EventType::Property, EventType::Brightness]
}

/// A round of polls, one for each source, until one of them hands something out.
#[derive(Clone, Copy, Debug, PartialEq, Eq, Structural)]
pub struct PollRound {
    /// The source that is polled.
    pub source: EventType,
    /// Whether a source before it has nothing yet.
    pub pending: bool,
}

/// How a round of polls goes on.
#[derive(Debug)]
pub enum RoundStep<T, E> {
    /// The next source is polled.
    Poll(PollRound),
    /// The round is over with what the four sources together answer. An event comes
    /// with its source.
    Done(SourcePoll<Result<(EventType, T), E>>),
}

/// The place of a source in the order in which they are polled.
pub open spec fn place(source: EventType) -> int {
    match source {
        EventType::Event => 0,
        EventType::Overheat => 1,
        EventType::Property => 2,
        EventType::Brightness => 3,
    }
}

/// What a source hands out, with the source where it is an event.
pub open spec fn labelled<T, E>(source: EventType, item: Result<T, E>) -> Result<
    (EventType, T),
    E,
> {
    match item {
        Ok(event) => Ok((source, event)),
        Err(error) => Err(error),
    }
}

impl PollRound {
    /// The round after a poll.
    pub open spec fn after<T, E>(self, poll: SourcePoll<Result<T, E>>) -> RoundStep<T, E> {
        match poll {
            SourcePoll::Ready(Some(item)) => RoundStep::Done(
                SourcePoll::Ready(Some(labelled(self.source, item))),
            ),
            _ => {
                let pending = self.pending || poll is Pending;
                let next = place(self.source) + 1;
                if next < polling_order().len() {
                    RoundStep::Poll(PollRound { source: polling_order()[next], pending })
                } else if pending {
                    RoundStep::Done(SourcePoll::Pending)
                } else {
                    RoundStep::Done(SourcePoll::Ready(None))
                }
            },
        }
    }

    /// Starts a round.
    pub fn start() -> (round: PollRound)
        ensures
            round == (PollRound { source: polling_order()[0], pending: false }),
    {
        PollRound { source: EventType::Event, pending: false }
    }

    /// Takes the answer of the polled source.
    pub fn step<T, E>(self, poll: SourcePoll<Result<T, E>>) -> (step: RoundStep<T, E>)
        ensures
            step == self.after(poll),
    {
        let pending: bool = match poll {
            SourcePoll::Ready(Some(Ok(event))) => {
                return RoundStep::Done(SourcePoll::Ready(Some(Ok((self.source, event)))));
            },
            SourcePoll::Ready(Some(Err(error))) => {
                return RoundStep::Done(SourcePoll::Ready(Some(Err(error))));
            },
            SourcePoll::Ready(None) => self.pending,
            SourcePoll::Pending => true,
        };
        match self.source {
            EventType::Event => RoundStep::Poll(
                PollRound { source: EventType::Overheat, pending },
            ),
            EventType::Overheat => RoundStep::Poll(
                PollRound { source: EventType::Property, pending },
            ),
            EventType::Property => RoundStep::Poll(
                PollRound { source: EventType::Brightness, pending },
            ),
            EventType::Brightness => {
                if pending {
                    RoundStep::Done(SourcePoll::Pending)
                } else {
                    RoundStep::Done(SourcePoll::Ready(None))
                }
            },
        }
    }
}

/// The outcome of a round in which each source would answer as given.
pub open spec fn outcome<T, E>(
    round: PollRound,
    polls: Seq<SourcePoll<Result<T, E>>>,
) -> SourcePoll<Result<(EventType, T), E>>
    decreases 4 - place(round.source),
{
    match round.after(polls[place(round.source)]) {
        RoundStep::Poll(next) => if place(next.source) == place(round.source) + 1 {
            outcome(next, polls)
        } else {
            arbitrary()
        },
        RoundStep::Done(result) => result,
    }
}

/// A round hands out what the first source that has something hands out. Where none
/// has, it is at its end exactly when all four are.
pub proof fn first_ready_source_wins<T, E>(polls: Seq<SourcePoll<Result<T, E>>>, k: int)
    requires
        polls.len() == 4,
        0 <= k <= 4,
        forall|i: int| 0 <= i < k ==> !(#[trigger] polls[i] matches SourcePoll::Ready(Some(_))),
        k < 4 ==> polls[k] matches SourcePoll::Ready(Some(_)),
    ensures
        outcome(PollRound { source: EventType::Event, pending: false }, polls) == (if k < 4 {
            let source = if k == 0 {
                EventType::Event
            } else if k == 1 {
                EventType::Overheat
            } else if k == 2 {
                EventType::Property
            } else {
                EventType::Brightness
            };
            SourcePoll::Ready(
                Some(
                    match polls[k]->Ready_0->0 {
                        Ok(event) => Ok((source, event)),
                        Err(error) => Err(error),
                    },
                ),
            )
        } else if exists|i: int| 0 <= i < 4 && #[trigger] polls[i] is Pending {
            SourcePoll::Pending
        } else {
            SourcePoll::Ready(None)
        }),
{
    reveal_with_fuel(outcome, 5);
    assert(k > 0 ==> !(polls[0] matches SourcePoll::Ready(Some(_))));
    assert(k > 1 ==> !(polls[1] matches SourcePoll::Ready(Some(_))));
    assert(k > 2 ==> !(polls[2] matches SourcePoll::Ready(Some(_))));
    assert(k > 3 ==> !(polls[3] matches SourcePoll::Ready(Some(_))));
}

/// Whether the stream of all events is at its end, given whether each source is.
pub fn is_terminated(events: bool, overheat: bool, properties: bool, brightness: bool) -> (r: bool)
    ensures
        r == (events && overheat && properties && brightness),
{
    events && overheat && properties && brightness
}

/// The sources are polled in this order: all events, the overheated lamp, all properties,
/// the brightness. What one of them hands out is handed out with that source, an error as it
/// is.
pub proof fn sources_are_polled_in_order<T, E>(
    round: PollRound,
    poll: SourcePoll<Result<T, E>>,
)
    ensures
        match poll {
            SourcePoll::Ready(Some(Ok(event))) => round.after(poll) == RoundStep::<T, E>::Done(
                SourcePoll::Ready(Some(Ok((round.source, event)))),
            ),
            SourcePoll::Ready(Some(Err(error))) => round.after(poll) == RoundStep::<T, E>::Done(
                SourcePoll::Ready(Some(Err(error))),
            ),
            _ => {
                let pending = round.pending || poll is Pending;
                match round.source {
                    EventType::Event => round.after(poll) == RoundStep::<T, E>::Poll(
                        PollRound { source: EventType::Overheat, pending },
                    ),
                    EventType::Overheat => round.after(poll) == RoundStep::<T, E>::Poll(
                        PollRound { source: EventType::Property, pending },
                    ),
                    EventType::Property => round.after(poll) == RoundStep::<T, E>::Poll(
                        PollRound { source: EventType::Brightness, pending },
                    ),
                    EventType::Brightness => if pending {
                        round.after(poll) == RoundStep::<T, E>::Done(SourcePoll::Pending)
                    } else {
                        round.after(poll) == RoundStep::<T, E>::Done(SourcePoll::Ready(None))
                    },
                }
            },
        },
        polling_order()[0] == EventType::Event,
{
}

} // verus!
