use vstd::prelude::*;
use crate::task::{Task, MAX_WORKERS, TERMINATION_SIGNAL};

verus! {

/// What a worker found when it looked for a message from the producer.
#[derive(Clone, Copy, Debug, PartialEq, Eq, Structural)]
pub enum Poll {
    /// A value arrived.
    Received(i32),
    /// Nothing was waiting.
    Empty,
    /// The producer's side of the channel is gone.
    Disconnected,
}

/// What a pool tells a worker to do next.
#[derive(Clone, Copy, Debug, PartialEq, Eq, Structural)]
pub enum Dispatch {
    /// Every task has been queued and none is left: the worker stops.
    Stop,
    /// The worker runs the given task; its CPU share is already charged, and the
    /// worker gives it back with the pool's `finish` once the work is done.
    Run(Task),
    /// The next task does not fit the CPU budget now: it stays first in
    /// line, and the worker waits this many milliseconds.
    Retry(u64),
    /// There is nothing to take now: the worker waits this many
    /// milliseconds.
    Idle(u64),
}

/// A worker's own state: its number and whether it has been told that
/// every task is queued.
pub struct Worker {
    index: i32,
    done_queuing: bool,
}

impl Worker {
    /// The worker's number.
    pub closed spec fn index_spec(&self) -> int {
        self.index as int
    }

    /// Whether the worker has been told that every task is queued.
    pub closed spec fn done_queuing_spec(&self) -> bool {
        self.done_queuing
    }

    /// A worker's number lies in `0..MAX_WORKERS`.
    pub open spec fn wf(&self) -> bool {
        0 <= self.index_spec() < MAX_WORKERS
    }

    /// A fresh worker with number `index`, not yet told to stop.
    pub fn new(index: i32) -> (w: Worker)
        requires
            0 <= index < MAX_WORKERS,
        ensures
            w.wf(),
            w.index_spec() == index,
            !w.done_queuing_spec(),
    {
        Worker { index, done_queuing: false }
    }

    /// The worker's number.
    pub fn index(&self) -> (i: i32)
        ensures
            i == self.index_spec(),
    {
        self.index
    }

    /// Whether the worker has been told that every task is queued.
    pub fn done_queuing(&self) -> (b: bool)
        ensures
            b == self.done_queuing_spec(),
    {
        self.done_queuing
    }

    /// Whether the worker still listens to the producer: it does until it
    /// has received the termination signal.
    pub fn listening(&self) -> (b: bool)
        ensures
            b == !self.done_queuing_spec(),
    {
        !self.done_queuing
    }

    /// Takes in what the worker found on the channel. The termination signal
    /// marks the worker as done queuing; any other value, or an empty
    /// channel, changes nothing. The result is `false` exactly when the
    /// channel is disconnected: the worker then gives up.
    pub fn observe(&mut self, poll: Poll) -> (keep_running: bool)
        ensures
            keep_running == !(poll is Disconnected),
            final(self).index_spec() == old(self).index_spec(),
            final(self).done_queuing_spec() == (old(self).done_queuing_spec()
                || poll == Poll::Received(TERMINATION_SIGNAL)),
    {
        match poll {
            Poll::Received(num) => {
                if num == TERMINATION_SIGNAL {
                    self.done_queuing = true;
                }
                true
            },
            Poll::Empty => true,
            Poll::Disconnected => false,
        }
    }

    /// How long this worker waits after it had to put a task back, in
    /// milliseconds: four times its number, so that workers retry at
    /// staggered times.
    pub fn backoff_ms(&self) -> (ms: u64)
        requires
            self.wf(),
        ensures
            ms == 4 * self.index_spec(),
    {
        (self.index * 4) as u64
    }
}

} // verus!
