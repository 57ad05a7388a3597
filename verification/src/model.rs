//! The pool as a state machine: its mathematical state, the events that can
//! happen to it, and the invariant that every reachable state satisfies.

use crate::channel::ChannelView;
use vstd::prelude::*;

verus! {

/// Where a worker stands in its life.
#[derive(Clone, Copy, Debug, PartialEq, Eq, Structural)]
pub enum WorkerState {
    /// In its loop, with no job in hand: it takes the next job when it can.
    Waiting,
    /// In its loop, running the one job that it took.
    Executing,
    /// Out of its loop because the channel reported closed; not yet joined.
    Terminating,
    /// Joined by the pool. Nothing happens to a joined worker any more.
    Joined,
}

impl WorkerState {
    /// A worker that is still in its loop.
    pub open spec fn is_running(self) -> bool {
        self == WorkerState::Waiting || self == WorkerState::Executing
    }

    /// How many steps a worker in this state is at most away from being
    /// joined, not counting the jobs it may still take.
    pub open spec fn rank(self) -> nat {
        match self {
            WorkerState::Executing => 3,
            WorkerState::Waiting => 2,
            WorkerState::Terminating => 1,
            WorkerState::Joined => 0,
        }
    }

    /// 1 for a worker that has a job in hand, 0 for any other.
    pub open spec fn in_hand(self) -> nat {
        if self == WorkerState::Executing {
            1
        } else {
            0
        }
    }
}

/// The number of workers among `workers` that have a job in hand.
pub open spec fn executing(workers: Seq<WorkerState>) -> nat
    decreases workers.len(),
{
    if workers.len() == 0 {
        0
    } else {
        executing(workers.drop_last()) + workers.last().in_hand()
    }
}

/// The sum of the ranks of `workers`.
pub open spec fn total_rank(workers: Seq<WorkerState>) -> nat
    decreases workers.len(),
{
    if workers.len() == 0 {
        0
    } else {
        total_rank(workers.drop_last()) + workers.last().rank()
    }
}

/// How a job came to its end.
#[derive(Clone, Copy, Debug, PartialEq, Eq, Structural)]
pub enum JobOutcome {
    /// The job ran through.
    Completed,
    /// The job raised a fault, which the worker's loop caught.
    Faulted,
}

impl JobOutcome {
    /// 1 for a fault, 0 for a job that ran through.
    pub open spec fn fault(self) -> nat {
        if self == JobOutcome::Faulted {
            1
        } else {
            0
        }
    }
}

/// Something that happens to a pool. Workers are named by their place in
/// the order of construction.
pub enum Event<J> {
    /// A caller submits a job.
    Submit(J),
    /// The worker is at the consumption point.
    Receive(int),
    /// The job that the worker had in hand has come to its end.
    Finish(int, JobOutcome),
    /// Teardown begins: the producer side of the channel is closed.
    Close,
    /// The pool has waited for the worker's thread and reclaimed it.
    Join(int),
}

/// The mathematical state of a pool.
pub struct PoolView<J> {
    /// The job channel with its history.
    pub channel: ChannelView<J>,
    /// The state of each worker, in the order of construction.
    pub workers: Seq<WorkerState>,
    /// The number of jobs that have come to their end, in whatever way.
    pub finished: nat,
    /// The number of jobs among them that ended by a fault.
    pub faulted: nat,
}

impl<J> PoolView<J> {
    /// A pool of `size` waiting workers around a fresh channel.
    pub open spec fn initial(size: nat) -> Self {
        PoolView {
            channel: ChannelView::fresh(),
            workers: Seq::new(size, |k: int| WorkerState::Waiting),
            finished: 0,
            faulted: 0,
        }
    }

    /// Whether `k` names a worker of this pool.
    pub open spec fn has_worker(self, k: int) -> bool {
        0 <= k < self.workers.len()
    }

    /// Whether every worker has been joined.
    pub open spec fn all_joined(self) -> bool {
        forall|k: int| 0 <= k < self.workers.len() ==> self.workers[k] == WorkerState::Joined
    }

    /// Whether every worker before `k` has been joined.
    pub open spec fn joined_before(self, k: int) -> bool {
        forall|j: int| 0 <= j < k && j < self.workers.len() ==> self.workers[j] == WorkerState::Joined
    }

    /// What holds of every state that a pool can reach.
    pub open spec fn inv(self) -> bool {
        // The number of workers is at least one.
        &&& self.workers.len() >= 1
        // No accepted job is lost or handed out twice.
        &&& self.channel.inv()
        // A job that was handed out has either run to its end or is in the
        // hand of exactly one worker.
        &&& self.finished + executing(self.workers) == self.channel.taken.len()
        // Only a job that has come to its end can have ended by a fault.
        &&& self.faulted <= self.finished
        // A worker leaves its loop only when the channel is closed and drained.
        &&& forall|k: int|
            0 <= k < self.workers.len() && !(#[trigger] self.workers[k]).is_running() ==> !self.channel.open
                && self.channel.pending.len() == 0
        // Workers are joined in the order of construction.
        &&& forall|j: int, k: int|
            0 <= j < k < self.workers.len() && #[trigger] self.workers[k] == WorkerState::Joined
                ==> #[trigger] self.workers[j] == WorkerState::Joined
    }

    /// Whether `event` can happen in this state.
    pub open spec fn enabled(self, event: Event<J>) -> bool {
        match event {
            // Anyone may try to submit at any time.
            Event::Submit(_) => true,
            // Only a worker without a job in hand goes to the consumption point.
            Event::Receive(k) => self.has_worker(k) && self.workers[k] == WorkerState::Waiting,
            // Only a job that is in hand can come to its end.
            Event::Finish(k, _) => self.has_worker(k) && self.workers[k] == WorkerState::Executing,
            // Teardown begins once.
            Event::Close => self.channel.open,
            // A worker is joined when its turn has come and its loop has ended.
            Event::Join(k) => self.has_worker(k) && self.workers[k] == WorkerState::Terminating
                && self.joined_before(k),
        }
    }

    /// The state after `event`.
    pub open spec fn next(self, event: Event<J>) -> Self {
        match event {
            Event::Submit(job) => PoolView { channel: self.channel.send(job), ..self },
            Event::Receive(k) => PoolView {
                channel: self.channel.recv(),
                workers: self.workers.update(k, self.after_receive()),
                ..self
            },
            // Whether the job ran through or faulted, the worker goes on.
            Event::Finish(k, outcome) => PoolView {
                workers: self.workers.update(k, WorkerState::Waiting),
                finished: self.finished + 1,
                faulted: self.faulted + outcome.fault(),
                ..self
            },
            Event::Close => PoolView { channel: self.channel.close(), ..self },
            Event::Join(k) => PoolView { workers: self.workers.update(k, WorkerState::Joined), ..self },
        }
    }

    /// The state of a waiting worker after it has been at the consumption
    /// point: it runs the job it found, waits on if there is none yet, and
    /// leaves its loop if there will never be one.
    pub open spec fn after_receive(self) -> WorkerState {
        if self.channel.pending.len() > 0 {
            WorkerState::Executing
        } else if self.channel.open {
            WorkerState::Waiting
        } else {
            WorkerState::Terminating
        }
    }

    /// A bound on the number of events that can still happen once teardown
    /// has begun: two for each pending job, and each worker's rank.
    pub open spec fn remaining(self) -> nat {
        2 * self.channel.pending.len() + total_rank(self.workers)
    }

    /// The state after the events of `trace`, one after the other.
    pub open spec fn run(self, trace: Seq<Event<J>>) -> Self
        decreases trace.len(),
    {
        if trace.len() == 0 {
            self
        } else {
            self.run(trace.drop_last()).next(trace.last())
        }
    }

    /// Whether each event of `trace` can happen in the state that it meets.
    pub open spec fn admits(self, trace: Seq<Event<J>>) -> bool
        decreases trace.len(),
    {
        trace.len() > 0 ==> self.admits(trace.drop_last()) && self.run(trace.drop_last()).enabled(
            trace.last(),
        )
    }
}

} // verus!
