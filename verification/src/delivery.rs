//! The course of one batch through the delivery engine: attempts are made
//! one after another until the endpoint takes the batch, rejects it, asks
//! for it in halves, or the retry budget is spent.
//!
//! The engine decides; whoever drives it sends the requests and waits. It
//! calls `Delivery::start`, carries out the action it is handed, reports
//! what came of it to `Delivery::advance`, and goes on until the action is
//! no longer `Action::Send`.

use crate::response::SendableState;
use crate::time::Duration;
use vstd::prelude::*;

verus! {

/// Why no further attempt is made for a batch.
#[derive(Clone, Copy, Debug, PartialEq, Eq, Structural)]
pub enum Stop {
    /// The endpoint took the batch, or rejected it for good.
    Done,
    /// The request could not be built or could not be sent.
    Abandoned,
    /// Every attempt the backoff sequence allows has been made.
    Exhausted,
}

/// What came of the attempt that the engine asked for.
#[derive(Clone, Copy, Debug, PartialEq, Eq, Structural)]
pub enum Event {
    /// The endpoint answered, and its response was classified.
    Response(SendableState),
    /// The batch could not be rendered, compressed or framed as a request.
    RequestFailed,
    /// The request could not be carried to the endpoint.
    TransportFailed,
}

/// What the driver of a delivery does next.
#[derive(Clone, Copy, Debug, PartialEq, Eq, Structural)]
pub enum Action {
    /// Wait for `wait`, then build the request and send it.
    Send { wait: Duration },
    /// Split the batch and deliver each half on its own, from the start of
    /// the backoff sequence.
    Split,
    /// Make no further attempt.
    Stop(Stop),
}

/// The state of one delivery: how many attempts have been asked for, and
/// whether one is still under way.
#[derive(Clone, Copy, Debug, PartialEq, Eq, Structural)]
pub struct Delivery {
    pub attempts: usize,
    pub in_flight: bool,
}

/// The wait before the attempt with index `attempt`: none before the first;
/// before a later one the wait the endpoint asked for, if it named one, and
/// else the one the backoff sequence holds at that index.
pub open spec fn wait_before(
    backoff: Seq<Duration>,
    attempt: int,
    asked: Option<Duration>,
) -> Duration
    recommends
        0 <= attempt < backoff.len(),
{
    if attempt == 0 {
        Duration::from_secs(0)
    } else {
        match asked {
            Some(wait) => wait,
            None => backoff[attempt],
        }
    }
}

/// The first move of a delivery against `backoff`.
pub open spec fn first_move(backoff: Seq<Duration>) -> (Delivery, Action) {
    if backoff.len() == 0 {
        (Delivery { attempts: 0, in_flight: false }, Action::Stop(Stop::Exhausted))
    } else {
        (
            Delivery { attempts: 1, in_flight: true },
            Action::Send { wait: wait_before(backoff, 0, None) },
        )
    }
}

/// The move that answers `event`, the outcome of the attempt under way.
///
/// A delivery with no attempt under way has ended and stays so.
pub open spec fn next_move(state: Delivery, event: Event, backoff: Seq<Duration>) -> (
    Delivery,
    Action,
) {
    let ended = Delivery { attempts: state.attempts, in_flight: false };
    if !state.in_flight {
        (ended, Action::Stop(Stop::Done))
    } else {
        match event {
            Event::RequestFailed => (ended, Action::Stop(Stop::Abandoned)),
            Event::TransportFailed => (ended, Action::Stop(Stop::Abandoned)),
            Event::Response(SendableState::Done) => (ended, Action::Stop(Stop::Done)),
            Event::Response(SendableState::Split) => (ended, Action::Split),
            Event::Response(SendableState::Retry(asked)) => if state.attempts < backoff.len() {
                (
                    Delivery { attempts: (state.attempts + 1) as usize, in_flight: true },
                    Action::Send { wait: wait_before(backoff, state.attempts as int, asked) },
                )
            } else {
                (ended, Action::Stop(Stop::Exhausted))
            },
        }
    }
}

/// How many requests a delivery sends from `action` on, where the attempts
/// it makes come out as `events` tell, one after the other. An attempt
/// whose outcome `events` does not hold is the last.
pub open spec fn requests_sent(
    state: Delivery,
    action: Action,
    events: Seq<Event>,
    backoff: Seq<Duration>,
) -> nat
    decreases events.len(),
{
    match action {
        Action::Send { .. } => if events.len() == 0 {
            1
        } else {
            let moved = next_move(state, events[0], backoff);
            1 + requests_sent(moved.0, moved.1, events.drop_first(), backoff)
        },
        _ => 0,
    }
}

/// Every outcome in `events` is a response that asks for a retry.
pub open spec fn all_retries(events: Seq<Event>) -> bool {
    forall|i: int| 0 <= i < events.len() ==> (#[trigger] events[i]) matches Event::Response(
        SendableState::Retry(_),
    )
}

/// The requests that a delivery in `state` can still send, the one that
/// `action` asks for included.
pub open spec fn budget_left(state: Delivery, action: Action, backoff: Seq<Duration>) -> nat {
    if action is Send {
        (backoff.len() - state.attempts + 1) as nat
    } else {
        0
    }
}

/// A delivery within its budget sends no more requests than are left of
/// it, whatever comes of its attempts.
pub proof fn lemma_requests_bounded(
    state: Delivery,
    action: Action,
    events: Seq<Event>,
    backoff: Seq<Duration>,
)
    requires
        backoff.len() <= usize::MAX,
        state.within(backoff),
        action is Send ==> state.in_flight,
    ensures
        requests_sent(state, action, events, backoff) <= budget_left(state, action, backoff),
    decreases events.len(),
{
    if action is Send && events.len() > 0 {
        let moved = next_move(state, events[0], backoff);
        lemma_requests_bounded(moved.0, moved.1, events.drop_first(), backoff);
    }
}

/// A delivery whose every attempt is answered with a request to retry
/// sends as many requests as it has budget left, if the answers do not run
/// out first.
pub proof fn lemma_retries_spend_budget(
    state: Delivery,
    action: Action,
    events: Seq<Event>,
    backoff: Seq<Duration>,
)
    requires
        backoff.len() <= usize::MAX,
        state.within(backoff),
        action is Send ==> state.in_flight,
        all_retries(events),
        events.len() >= budget_left(state, action, backoff),
    ensures
        requests_sent(state, action, events, backoff) == budget_left(state, action, backoff),
    decreases events.len(),
{
    if action is Send {
        let moved = next_move(state, events[0], backoff);
        let rest = events.drop_first();
        assert(all_retries(rest)) by {
            assert forall|i: int| 0 <= i < rest.len() implies (#[trigger] rest[i]) matches Event::Response(
                SendableState::Retry(_),
            ) by {
                assert(rest[i] == events[i + 1]);
            }
        }
        lemma_retries_spend_budget(moved.0, moved.1, rest, backoff);
    }
}

/// From its start a delivery sends at most as many requests as the backoff
/// sequence is long; it sends exactly that many where every answer asks
/// for a retry. The sequence is one that a vector can hold.
pub proof fn lemma_delivery_budget(events: Seq<Event>, backoff: Seq<Duration>)
    requires
        backoff.len() <= usize::MAX,
    ensures
        requests_sent(first_move(backoff).0, first_move(backoff).1, events, backoff)
            <= backoff.len(),
        all_retries(events) && events.len() >= backoff.len() ==> requests_sent(
            first_move(backoff).0,
            first_move(backoff).1,
            events,
            backoff,
        ) == backoff.len(),
{
    let begun = first_move(backoff);
    lemma_requests_bounded(begun.0, begun.1, events, backoff);
    if all_retries(events) && events.len() >= backoff.len() {
        lemma_retries_spend_budget(begun.0, begun.1, events, backoff);
    }
}

impl Delivery {
    /// The delivery keeps within the budget of `backoff`: it has asked for
    /// no more attempts than the sequence is long, and for at least one if
    /// one is under way.
    pub open spec fn within(self, backoff: Seq<Duration>) -> bool {
        &&& self.attempts <= backoff.len()
        &&& self.in_flight ==> self.attempts >= 1
    }

    /// Begins the delivery of a batch: the first attempt is made at once,
    /// unless the backoff sequence allows none.
    pub fn start(backoff: &Vec<Duration>) -> (begun: (Delivery, Action))
        ensures
            begun == first_move(backoff@),
            begun.0.within(backoff@),
    {
        if backoff.len() == 0 {
            (Delivery { attempts: 0, in_flight: false }, Action::Stop(Stop::Exhausted))
        } else {
            (
                Delivery { attempts: 1, in_flight: true },
                Action::Send { wait: Duration::from_secs(0) },
            )
        }
    }

    /// Takes the outcome of the attempt under way and decides what follows.
    pub fn advance(self, event: Event, backoff: &Vec<Duration>) -> (moved: (Delivery, Action))
        ensures
            moved == next_move(self, event, backoff@),
            self.within(backoff@) ==> moved.0.within(backoff@),
    {
        let ended = Delivery { attempts: self.attempts, in_flight: false };
        if !self.in_flight {
            return (ended, Action::Stop(Stop::Done));
        }
        match event {
            Event::RequestFailed => (ended, Action::Stop(Stop::Abandoned)),
            Event::TransportFailed => (ended, Action::Stop(Stop::Abandoned)),
            Event::Response(SendableState::Done) => (ended, Action::Stop(Stop::Done)),
            Event::Response(SendableState::Split) => (ended, Action::Split),
            Event::Response(SendableState::Retry(asked)) => {
                if self.attempts < backoff.len() {
                    let wait = if self.attempts == 0 {
                        Duration::from_secs(0)
                    } else {
                        match asked {
                            Some(wait) => wait,
                            None => backoff[self.attempts],
                        }
                    };
                    (Delivery { attempts: self.attempts + 1, in_flight: true }, Action::Send { wait })
                } else {
                    (ended, Action::Stop(Stop::Exhausted))
                }
            },
        }
    }
}

} // verus!
