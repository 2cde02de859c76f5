//! The delivery queue of the blocking client: one worker waits for a batch,
//! takes everything that is queued at that moment, drops what exceeds the
//! configured maximum, delivers the rest, and waits again.
//!
//! The worker decides; whoever drives it owns the channel and the runtime.
//! It carries out the command it is handed and reports the outcome as a
//! signal to `Worker::step`, until the command is `Command::Exit`.

use vstd::prelude::*;

verus! {

/// Where the worker stands in its cycle.
pub enum Worker<T> {
    /// Blocked until a first batch arrives.
    WaitForFirst,
    /// Taking what else is queued; `batches` holds what has arrived so far,
    /// oldest first.
    DrainAvailable { batches: Vec<T> },
    /// Waiting for every delivery of the cycle to end.
    DeliverAll,
    /// The channel is closed and the worker has left its loop.
    Stopped,
}

/// What the driver reports back to the worker.
pub enum Signal<T> {
    /// A batch was taken from the channel.
    Batch(T),
    /// The channel holds nothing at the moment.
    Empty,
    /// The channel is closed: nothing will be submitted any more.
    Closed,
    /// Every delivery of the cycle has ended.
    Delivered,
}

/// What the driver does next.
pub enum Command<T> {
    /// Block until a batch arrives or the channel is closed.
    Receive,
    /// Take a batch if one is queued, without blocking.
    Poll,
    /// Deliver `batches` concurrently; `dropped` batches were discarded.
    Deliver { batches: Vec<T>, dropped: usize },
    /// Leave the loop.
    Exit,
}

/// How many of `len` drained batches a cycle keeps.
pub open spec fn retained_count(len: nat, queue_max: nat) -> nat {
    if len <= queue_max {
        len
    } else {
        queue_max
    }
}

/// The batches a cycle keeps: the oldest, up to the maximum.
pub open spec fn retained<T>(batches: Seq<T>, queue_max: nat) -> Seq<T> {
    batches.subrange(0, retained_count(batches.len(), queue_max) as int)
}

/// How many batches a cycle discards.
pub open spec fn dropped_count(len: nat, queue_max: nat) -> nat {
    (len - retained_count(len, queue_max)) as nat
}

/// A cycle keeps no more than the maximum, and every batch is either kept
/// or counted as dropped. A cycle that drains no more than the maximum
/// keeps them all.
pub proof fn lemma_overflow_policy<T>(batches: Seq<T>, queue_max: nat)
    ensures
        retained(batches, queue_max).len() <= queue_max,
        retained(batches, queue_max).len() + dropped_count(batches.len(), queue_max)
            == batches.len(),
        batches.len() <= queue_max ==> retained(batches, queue_max) == batches && dropped_count(
            batches.len(),
            queue_max,
        ) == 0,
        forall|i: int|
            0 <= i < retained(batches, queue_max).len() ==> retained(batches, queue_max)[i]
                == batches[i],
{
    if batches.len() <= queue_max {
        assert(retained(batches, queue_max) =~= batches);
    }
}

/// Drops the batches that exceed `queue_max`, newest first, and returns
/// how many were dropped.
pub fn apply_overflow_policy<T>(batches: &mut Vec<T>, queue_max: usize) -> (dropped: usize)
    ensures
        final(batches)@ == retained(old(batches)@, queue_max as nat),
        dropped == dropped_count(old(batches)@.len(), queue_max as nat),
        old(batches)@.len() <= queue_max ==> dropped == 0 && final(batches)@ == old(batches)@,
{
    let len: usize = batches.len();
    if len > queue_max {
        batches.truncate(queue_max);
        len - queue_max
    } else {
        assert(batches@.subrange(0, len as int) =~= batches@);
        0
    }
}

/// A worker's state as a value of the model: the batches taken so far as a
/// sequence.
pub enum WorkerModel<T> {
    WaitForFirst,
    DrainAvailable { batches: Seq<T> },
    DeliverAll,
    Stopped,
}

/// A command as a value of the model.
pub enum CommandModel<T> {
    Receive,
    Poll,
    Deliver { batches: Seq<T>, dropped: nat },
    Exit,
}

impl<T> View for Worker<T> {
    type V = WorkerModel<T>;

    open spec fn view(&self) -> WorkerModel<T> {
        match *self {
            Worker::WaitForFirst => WorkerModel::WaitForFirst,
            Worker::DrainAvailable { batches } => WorkerModel::DrainAvailable { batches: batches@ },
            Worker::DeliverAll => WorkerModel::DeliverAll,
            Worker::Stopped => WorkerModel::Stopped,
        }
    }
}

impl<T> View for Command<T> {
    type V = CommandModel<T>;

    open spec fn view(&self) -> CommandModel<T> {
        match *self {
            Command::Receive => CommandModel::Receive,
            Command::Poll => CommandModel::Poll,
            Command::Deliver { batches, dropped } => CommandModel::Deliver {
                batches: batches@,
                dropped: dropped as nat,
            },
            Command::Exit => CommandModel::Exit,
        }
    }
}

/// Whether a worker in `state` waits for `signal`: a batch or the closing
/// of the channel while it waits for the first batch; a batch, or word that
/// none is left, while it drains; the end of the deliveries while they run.
pub open spec fn expects<T>(state: WorkerModel<T>, signal: Signal<T>) -> bool {
    match state {
        WorkerModel::WaitForFirst => signal is Batch || signal is Closed,
        WorkerModel::DrainAvailable { .. } => signal is Batch || signal is Empty
            || signal is Closed,
        WorkerModel::DeliverAll => signal is Delivered,
        WorkerModel::Stopped => false,
    }
}

/// The state that follows `state` when `signal` arrives, and the command
/// that goes with it.
pub open spec fn transition<T>(state: WorkerModel<T>, signal: Signal<T>, queue_max: nat) -> (
    WorkerModel<T>,
    CommandModel<T>,
) {
    match state {
        WorkerModel::WaitForFirst => match signal {
            Signal::Batch(first) => (
                WorkerModel::DrainAvailable { batches: seq![first] },
                CommandModel::Poll,
            ),
            _ => (WorkerModel::Stopped, CommandModel::Exit),
        },
        WorkerModel::DrainAvailable { batches } => match signal {
            Signal::Batch(next) => (
                WorkerModel::DrainAvailable { batches: batches.push(next) },
                CommandModel::Poll,
            ),
            _ => (
                WorkerModel::DeliverAll,
                CommandModel::Deliver {
                    batches: retained(batches, queue_max),
                    dropped: dropped_count(batches.len(), queue_max),
                },
            ),
        },
        WorkerModel::DeliverAll => (WorkerModel::WaitForFirst, CommandModel::Receive),
        WorkerModel::Stopped => (WorkerModel::Stopped, CommandModel::Exit),
    }
}

impl<T> Worker<T> {
    /// A worker at the start of its loop, and the command that starts it.
    pub fn new() -> (begun: (Worker<T>, Command<T>))
        ensures
            begun.0@ == WorkerModel::<T>::WaitForFirst,
            begun.1@ == CommandModel::<T>::Receive,
    {
        (Worker::WaitForFirst, Command::Receive)
    }

    /// Whether the worker waits for `signal` in the state it is in.
    pub fn awaits(&self, signal: &Signal<T>) -> (awaited: bool)
        ensures
            awaited == expects(self@, *signal),
    {
        match self {
            Worker::WaitForFirst => match signal {
                Signal::Batch(_) => true,
                Signal::Closed => true,
                _ => false,
            },
            Worker::DrainAvailable { .. } => match signal {
                Signal::Delivered => false,
                _ => true,
            },
            Worker::DeliverAll => match signal {
                Signal::Delivered => true,
                _ => false,
            },
            Worker::Stopped => false,
        }
    }

    /// Takes a signal that the worker waits for and moves on in the cycle.
    pub fn step(self, signal: Signal<T>, queue_max: usize) -> (moved: (Worker<T>, Command<T>))
        requires
            expects(self@, signal),
        ensures
            (moved.0@, moved.1@) == transition(self@, signal, queue_max as nat),
    {
        match self {
            Worker::WaitForFirst => match signal {
                Signal::Batch(first) => {
                    let mut batches: Vec<T> = Vec::new();
                    batches.push(first);
                    assert(batches@ =~= seq![first]);
                    (Worker::DrainAvailable { batches }, Command::Poll)
                },
                _ => (Worker::Stopped, Command::Exit),
            },
            Worker::DrainAvailable { batches } => match signal {
                Signal::Batch(next) => {
                    let mut batches = batches;
                    batches.push(next);
                    (Worker::DrainAvailable { batches }, Command::Poll)
                },
                _ => {
                    let mut batches = batches;
                    let dropped: usize = apply_overflow_policy(&mut batches, queue_max);
                    (Worker::DeliverAll, Command::Deliver { batches, dropped })
                },
            },
            Worker::DeliverAll => (Worker::WaitForFirst, Command::Receive),
            Worker::Stopped => (Worker::Stopped, Command::Exit),
        }
    }
}

} // verus!
