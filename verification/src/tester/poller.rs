//! The state of a poller: a function that is called at each tick and whose outcome
//! may take its time.

use vstd::prelude::*;

verus! {

/// Either the function that a poller calls, or the call that is under way.
#[derive(Debug)]
pub enum Inner<F, P> {
    /// The function, ready to be called.
    Fun(F),
    /// A call that is under way, and that gives the function back.
    Future(P),
    /// The function was taken to be called.
    Invalid,
}

/// What a poller needs to go on.
#[derive(Clone, Copy, Debug, PartialEq, Eq, Structural)]
pub enum PollerNeed {
    /// The next tick.
    Tick,
    /// The end of the call that is under way.
    Call,
}

/// What a poller does when it is polled.
#[derive(Debug)]
pub enum PollerTurn<F, P> {
    /// It waits for the next tick.
    Wait,
    /// It calls the function.
    Start(F),
    /// It goes on with the call that is under way.
    Resume(P),
}

/// How a call stands.
#[derive(Debug)]
pub enum CallPoll<T, F, P> {
    /// It is over, with its outcome and the function.
    Ready(T, F),
    /// It is under way.
    Pending(P),
}

impl<F, P> Inner<F, P> {
    /// What is left once the function is taken.
    pub open spec fn taken(self) -> Self {
        match self {
            Inner::Fun(_) => Inner::Invalid,
            _ => self,
        }
    }

    /// Takes the function, if it is ready to be called.
    pub fn take_fun(&mut self) -> (r: Option<F>)
        ensures
            *final(self) == old(self).taken(),
            r == match *old(self) {
                Inner::Fun(fun) => Some(fun),
                _ => None,
            },
    {
        if matches!(self, Inner::Fun(_)) {
            let mut inner: Inner<F, P> = Inner::Invalid;
            std::mem::swap(self, &mut inner);
            match inner {
                Inner::Fun(fun) => Some(fun),
                _ => None,
            }
        } else {
            None
        }
    }

    /// What the poller needs to go on.
    pub fn need(&self) -> (r: PollerNeed)
        requires
            !(self is Invalid),
        ensures
            r == (if self is Fun {
                PollerNeed::Tick
            } else {
                PollerNeed::Call
            }),
    {
        match self {
            Inner::Fun(_) => PollerNeed::Tick,
            _ => PollerNeed::Call,
        }
    }

    /// Takes the call that is under way, to see how it stands.
    pub fn take_call(&mut self) -> (r: Option<P>)
        ensures
            match *old(self) {
                Inner::Future(call) => r == Some(call) && *final(self) == Inner::<F, P>::Invalid,
                _ => r is None && *final(self) == *old(self),
            },
    {
        if matches!(self, Inner::Future(_)) {
            let mut inner: Inner<F, P> = Inner::Invalid;
            std::mem::swap(self, &mut inner);
            match inner {
                Inner::Future(call) => Some(call),
                _ => None,
            }
        } else {
            None
        }
    }

    /// What is left once a poll has begun, and what it does.
    pub open spec fn turned(self, ticked: bool) -> (Self, PollerTurn<F, P>) {
        match self {
            Inner::Fun(fun) => if ticked {
                (Inner::Invalid, PollerTurn::Start(fun))
            } else {
                (self, PollerTurn::Wait)
            },
            Inner::Future(call) => (Inner::Invalid, PollerTurn::Resume(call)),
            Inner::Invalid => (self, PollerTurn::Wait),
        }
    }

    /// Begins a poll: takes the function where a tick has fired, or the call that is
    /// under way.
    pub fn turn(&mut self, ticked: bool) -> (r: PollerTurn<F, P>)
        requires
            !(*old(self) is Invalid),
        ensures
            (*final(self), r) == old(self).turned(ticked),
    {
        match self.need() {
            PollerNeed::Tick => {
                if !ticked {
                    return PollerTurn::Wait;
                }
                match self.take_fun() {
                    Some(fun) => PollerTurn::Start(fun),
                    None => PollerTurn::Wait,
                }
            },
            PollerNeed::Call => match self.take_call() {
                Some(call) => PollerTurn::Resume(call),
                None => PollerTurn::Wait,
            },
        }
    }

    /// What is left once it is known how a call stands.
    pub open spec fn settled<T>(poll: CallPoll<T, F, P>) -> Self {
        match poll {
            CallPoll::Ready(_, fun) => Inner::Fun(fun),
            CallPoll::Pending(call) => Inner::Future(call),
        }
    }

    /// Takes note of how a call stands, and hands out its outcome once it is over.
    pub fn settle<T>(&mut self, poll: CallPoll<T, F, P>) -> (item: Option<T>)
        ensures
            *final(self) == Inner::<F, P>::settled(poll),
            item == outcome(poll),
    {
        match poll {
            CallPoll::Ready(out, fun) => {
                *self = Inner::Fun(fun);
                Some(out)
            },
            CallPoll::Pending(call) => {
                *self = Inner::Future(call);
                None
            },
        }
    }
}

/// The item that is handed out once it is known how a call stands.
pub open spec fn outcome<T, F, P>(poll: CallPoll<T, F, P>) -> Option<T> {
    match poll {
        CallPoll::Ready(out, _) => Some(out),
        CallPoll::Pending(_) => None,
    }
}

/// One poll of a poller: whether a tick has fired by then, and how the call that is
/// started or resumed stands after it. Where there is no call, this is of no account.
pub struct Polled<T, F, P> {
    /// Whether a tick has fired.
    pub ticked: bool,
    /// How the call stands.
    pub call: CallPoll<T, F, P>,
}

impl<F, P> Inner<F, P> {
    /// What one poll leaves, and the item that it hands out, if any.
    pub open spec fn polled<T>(self, poll: Polled<T, F, P>) -> (Self, Option<T>) {
        match self.turned(poll.ticked) {
            (next, PollerTurn::Wait) => (next, None),
            (_, _) => (Inner::settled(poll.call), outcome(poll.call)),
        }
    }

    /// What a number of polls leave.
    pub open spec fn after_polls<T>(self, polls: Seq<Polled<T, F, P>>) -> Self
        decreases polls.len(),
    {
        if polls.len() == 0 {
            self
        } else {
            self.after_polls(polls.drop_last()).polled(polls.last()).0
        }
    }

    /// The items that a number of polls hand out.
    pub open spec fn items<T>(self, polls: Seq<Polled<T, F, P>>) -> Seq<T>
        decreases polls.len(),
    {
        if polls.len() == 0 {
            Seq::empty()
        } else {
            let before = self.items(polls.drop_last());
            match self.after_polls(polls.drop_last()).polled(polls.last()).1 {
                Some(item) => before.push(item),
                None => before,
            }
        }
    }

    /// The polls that hand out an item.
    pub open spec fn ends<T>(self, polls: Seq<Polled<T, F, P>>) -> Seq<int>
        decreases polls.len(),
    {
        if polls.len() == 0 {
            Seq::empty()
        } else {
            let before = self.ends(polls.drop_last());
            if self.after_polls(polls.drop_last()).polled(polls.last()).1 is Some {
                before.push(polls.len() - 1)
            } else {
                before
            }
        }
    }

    /// The polls that call the function.
    pub open spec fn starts<T>(self, polls: Seq<Polled<T, F, P>>) -> Seq<int>
        decreases polls.len(),
    {
        if polls.len() == 0 {
            Seq::empty()
        } else {
            let before = self.starts(polls.drop_last());
            if self.after_polls(polls.drop_last()).turned(polls.last().ticked).1 is Start {
                before.push(polls.len() - 1)
            } else {
                before
            }
        }
    }
}

/// A poller that starts with its function can always go on: it has the function or a
/// call that gives it back.
pub proof fn poller_can_always_go_on<T, F, P>(start: Inner<F, P>, polls: Seq<Polled<T, F, P>>)
    requires
        start is Fun,
    ensures
        !(start.after_polls(polls) is Invalid),
    decreases polls.len(),
{
    if polls.len() > 0 {
        poller_can_always_go_on(start, polls.drop_last());
    }
}

/// A poll calls the function exactly when a tick has fired and no call is under way.
pub proof fn poller_calls_at_ticks<T, F, P>(start: Inner<F, P>, polls: Seq<Polled<T, F, P>>, i: int)
    requires
        start is Fun,
        0 <= i < polls.len(),
    ensures
        start.starts(polls).contains(i) <==> polls[i].ticked && start.after_polls(
            polls.take(i),
        ) is Fun,
    decreases polls.len(),
{
    let before = polls.drop_last();
    let n = before.len() as int;
    let last_starts = start.after_polls(before).turned(polls.last().ticked).1 is Start;
    assert(start.starts(polls) == if last_starts {
        start.starts(before).push(n)
    } else {
        start.starts(before)
    });
    poller_can_always_go_on(start, before);
    if i < n {
        poller_calls_at_ticks(start, before, i);
        assert(polls.take(i) =~= before.take(i));
        assert(polls[i] == before[i]);
        if start.starts(before).contains(i) {
            let k = choose|k: int|
                0 <= k < start.starts(before).len() && start.starts(before)[k] == i;
            assert(start.starts(polls)[k] == i);
        }
    } else {
        assert(polls.take(i) =~= before);
        lemma_positions(start, before);
        if last_starts {
            assert(start.starts(polls).last() == i);
        }
    }
}

/// Each call of the function gives exactly one item, its outcome, and the items come in
/// the order of the calls: a call ends before the next one starts, is pending until
/// then, and at most the last one is still under way.
pub proof fn poller_gives_one_item_per_call<T, F, P>(
    start: Inner<F, P>,
    polls: Seq<Polled<T, F, P>>,
)
    requires
        start is Fun,
    ensures
        start.items(polls).len() == start.ends(polls).len(),
        start.starts(polls).len() == start.ends(polls).len() + if start.after_polls(
            polls,
        ) is Future {
            1int
        } else {
            0int
        },
        forall|k: int|
            0 <= k < start.ends(polls).len() ==> {
                &&& start.starts(polls)[k] <= #[trigger] start.ends(polls)[k] < polls.len()
                &&& outcome(polls[start.ends(polls)[k]].call) == Some(start.items(polls)[k])
            },
        forall|k: int, i: int|
            #![trigger start.ends(polls)[k], polls[i]]
            0 <= k < start.ends(polls).len() && start.starts(polls)[k] <= i < start.ends(polls)[k]
                ==> polls[i].call is Pending,
        forall|j: int, k: int|
            0 <= j < k < start.starts(polls).len() ==> #[trigger] start.ends(polls)[j]
                < #[trigger] start.starts(polls)[k],
        start.after_polls(polls) is Future ==> forall|i: int|
            start.starts(polls).last() <= i < polls.len() ==> (#[trigger] polls[i]).call is Pending,
    decreases polls.len(),
{
    if polls.len() > 0 {
        let before = polls.drop_last();
        poller_gives_one_item_per_call(start, before);
        poller_can_always_go_on(start, before);
        lemma_positions(start, before);
        lemma_positions(start, polls);
        assert forall|i: int| 0 <= i < before.len() implies before[i] == #[trigger] polls[i] by {}
    }
}

/// The polls that call the function, and those that hand out an item, are among all.
proof fn lemma_positions<T, F, P>(start: Inner<F, P>, polls: Seq<Polled<T, F, P>>)
    ensures
        forall|k: int|
            0 <= k < start.starts(polls).len() ==> 0 <= #[trigger] start.starts(polls)[k]
                < polls.len(),
        forall|k: int|
            0 <= k < start.ends(polls).len() ==> 0 <= #[trigger] start.ends(polls)[k]
                < polls.len(),
    decreases polls.len(),
{
    if polls.len() > 0 {
        let before = polls.drop_last();
        lemma_positions(start, before);
        assert forall|k: int| 0 <= k < start.starts(polls).len() implies 0
            <= #[trigger] start.starts(polls)[k] < polls.len() by {
            if k < start.starts(before).len() {
                assert(start.starts(polls)[k] == start.starts(before)[k]);
            }
        }
        assert forall|k: int| 0 <= k < start.ends(polls).len() implies 0
            <= #[trigger] start.ends(polls)[k] < polls.len() by {
            if k < start.ends(before).len() {
                assert(start.ends(polls)[k] == start.ends(before)[k]);
            }
        }
    }
}

} // verus!
