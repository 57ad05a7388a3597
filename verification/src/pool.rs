//! The pool: a fixed set of workers around one job channel.
//!
//! The pool is a plain value that decides; it starts no thread and runs no
//! job on its own account. A caller that wants the workers on threads of
//! their own keeps the pool behind one lock, lets each thread call
//! [`ThreadPool::receive`] and [`ThreadPool::finish`] around the job that it
//! runs outside the lock, and calls [`ThreadPool::close`] and
//! [`ThreadPool::join`] when it tears the pool down. A caller with one thread
//! hands [`ThreadPool::shutdown`] the means to run a job.
//!
//! A job that faults while it runs does not end its worker. Whoever runs
//! the job catches the fault at the worker's loop, reports it, and tells
//! [`ThreadPool::finish`] how the job ended; the pool decides that the
//! worker goes on either way, so that a failing job never costs the pool a
//! worker.

use crate::channel::{JobChannel, Received};
use crate::laws::{law_invariant_step, lemma_executing_none};
use crate::model::{Event, JobOutcome, PoolView, WorkerState};
use vstd::prelude::*;

verus! {

/// One worker of a pool: its number and where it stands.
#[derive(Clone, Copy)]
struct Worker {
    id: usize,
    state: WorkerState,
}

impl Worker {
    /// A worker with the number `id`, waiting for its first job.
    fn new(id: usize) -> (worker: Worker)
        ensures
            worker.id == id,
            worker.state == WorkerState::Waiting,
    {
        Worker { id, state: WorkerState::Waiting }
    }

    /// One turn of the worker's loop: the worker comes to the consumption
    /// point and goes by what it finds. With a job in hand it runs the job,
    /// with nothing there yet it waits, and with the channel closed and
    /// drained it leaves its loop.
    fn take<J>(&mut self, channel: &mut JobChannel<J>) -> (received: Received<J>)
        requires
            old(self).state == WorkerState::Waiting,
            old(channel).wf(),
        ensures
            final(channel).wf(),
            final(channel)@ == old(channel)@.recv(),
            received == old(channel)@.front(),
            final(self).id == old(self).id,
            final(self).state == (match received {
                Received::Job(_) => WorkerState::Executing,
                Received::Empty => WorkerState::Waiting,
                Received::Closed => WorkerState::Terminating,
            }),
    {
        let received = channel.recv();
        match received {
            Received::Job(_) => {
                self.state = WorkerState::Executing;
            },
            Received::Empty => {},
            Received::Closed => {
                self.state = WorkerState::Terminating;
            },
        }
        received
    }

    /// The job in hand has come to its end. The worker goes on with its
    /// loop, whether the job ran through or faulted.
    fn finish(&mut self, outcome: JobOutcome)
        requires
            old(self).state == WorkerState::Executing,
        ensures
            final(self).id == old(self).id,
            final(self).state == WorkerState::Waiting,
    {
        self.state = match outcome {
            JobOutcome::Completed => WorkerState::Waiting,
            JobOutcome::Faulted => WorkerState::Waiting,
        };
    }

    /// The pool has waited for the worker, whose loop had ended.
    fn join(&mut self)
        requires
            old(self).state == WorkerState::Terminating,
        ensures
            final(self).id == old(self).id,
            final(self).state == WorkerState::Joined,
    {
        self.state = WorkerState::Joined;
    }
}

/// A pool of a fixed number of workers that take jobs of type `J` from one
/// shared channel.
pub struct ThreadPool<J> {
    workers: Vec<Worker>,
    channel: JobChannel<J>,
    joined: usize,
    finished: Ghost<nat>,
    faulted: Ghost<nat>,
}

impl<J> View for ThreadPool<J> {
    type V = PoolView<J>;

    closed spec fn view(&self) -> PoolView<J> {
        PoolView {
            channel: self.channel@,
            workers: Seq::new(self.workers@.len(), |k: int| self.workers@[k].state),
            finished: self.finished@,
            faulted: self.faulted@,
        }
    }
}

impl<J> ThreadPool<J> {
    /// The pool is in a state that a pool can reach, and what it keeps for
    /// its own use agrees with that state.
    pub closed spec fn wf(&self) -> bool {
        &&& self@.inv()
        &&& self.channel.wf()
        &&& self.joined <= self.workers@.len() <= usize::MAX
        &&& forall|k: int| 0 <= k < self.workers@.len() ==> (#[trigger] self.workers@[k]).id == k
        &&& forall|k: int|
            0 <= k < self.workers@.len() ==> ((#[trigger] self.workers@[k]).state
                == WorkerState::Joined <==> k < self.joined)
    }

    /// A well-formed pool satisfies the invariant of the state machine.
    pub proof fn lemma_wf_inv(&self)
        requires
            self.wf(),
        ensures
            self@.inv(),
    {
    }

    /// Creates a pool of `size` workers, numbered from 0 in the order of
    /// their creation, around a fresh channel. A pool without workers could
    /// never make progress, so `size` is at least 1.
    pub fn new(size: usize) -> (pool: Self)
        requires
            size >= 1,
        ensures
            pool.wf(),
            pool@ == PoolView::<J>::initial(size as nat),
    {
        let channel = JobChannel::new();
        let mut workers: Vec<Worker> = Vec::new();
        let mut id: usize = 0;
        while id < size
            invariant
                id <= size,
                workers@.len() == id,
                forall|k: int|
                    0 <= k < id ==> (#[trigger] workers@[k]).id == k && workers@[k].state
                        == WorkerState::Waiting,
            decreases size - id,
        {
            workers.push(Worker::new(id));
            id += 1;
        }
        let pool = ThreadPool {
            workers,
            channel,
            joined: 0,
            finished: Ghost(0),
            faulted: Ghost(0),
        };
        proof {
            assert(pool@.workers =~= PoolView::<J>::initial(size as nat).workers);
            lemma_executing_none(pool@.workers);
        }
        pool
    }

    /// Creates a pool of `size` workers if `size` is at least 1, and nothing
    /// for a size of zero: no worker, no channel, no pool.
    pub fn try_new(size: usize) -> (pool: Option<Self>)
        ensures
            size == 0 <==> pool is None,
            pool is Some ==> pool->Some_0.wf() && pool->Some_0@ == PoolView::<J>::initial(
                size as nat,
            ),
    {
        if size == 0 {
            None
        } else {
            Some(Self::new(size))
        }
    }

    /// The number of workers, which never changes.
    pub fn size(&self) -> (size: usize)
        ensures
            size == self@.workers.len(),
    {
        self.workers.len()
    }

    /// Whether the pool still accepts jobs: whether teardown has not begun.
    pub fn is_open(&self) -> (open: bool)
        ensures
            open == self@.channel.open,
    {
        self.channel.is_open()
    }

    /// The number of jobs that were accepted and that no worker has taken.
    pub fn pending_jobs(&self) -> (pending: usize)
        ensures
            pending == self@.channel.pending.len(),
    {
        self.channel.len()
    }

    /// The state of the worker with the number `id`, if there is one.
    pub fn worker_state(&self, id: usize) -> (state: Option<WorkerState>)
        ensures
            state == (if self@.has_worker(id as int) {
                Some(self@.workers[id as int])
            } else {
                None
            }),
    {
        if id < self.workers.len() {
            Some(self.workers[id].state)
        } else {
            None
        }
    }

    /// Submits a job. An open pool queues it behind the jobs that wait, and
    /// one worker will take it. Once teardown has begun the pool takes
    /// nothing: the job comes back in `Err`, the pool is unchanged, and the
    /// job is never run.
    pub fn execute(&mut self, job: J) -> (submitted: Result<(), J>)
        requires
            old(self).wf(),
        ensures
            final(self).wf(),
            final(self)@ == old(self)@.next(Event::Submit(job)),
            submitted == (if old(self)@.channel.open {
                Ok::<(), J>(())
            } else {
                Err::<(), J>(job)
            }),
    {
        proof {
            law_invariant_step(self@, Event::Submit(job));
        }
        let submitted = self.channel.send(job);
        assert(self@.workers =~= old(self)@.workers);
        submitted
    }

    /// The worker `id`, which has no job in hand, comes to the consumption
    /// point. If a job is pending the worker takes the oldest and the caller
    /// runs it, then calls [`ThreadPool::finish`]. If none is pending and
    /// the pool is open the worker has to wait and come again. If none is
    /// pending and teardown has begun the worker leaves its loop.
    pub fn receive(&mut self, id: usize) -> (received: Received<J>)
        requires
            old(self).wf(),
            old(self)@.enabled(Event::Receive(id as int)),
        ensures
            final(self).wf(),
            final(self)@ == old(self)@.next(Event::Receive(id as int)),
            received == old(self)@.channel.front(),
    {
        proof {
            law_invariant_step(self@, Event::Receive(id as int));
        }
        let mut worker = self.workers[id];
        let received = worker.take(&mut self.channel);
        self.workers.set(id, worker);
        assert(self@.workers =~= old(self)@.next(Event::Receive(id as int)).workers);
        received
    }

    /// The job that the worker `id` had in hand has come to its end, as
    /// `outcome` says. A job that ran through and a job that faulted both
    /// count as done, and after either the worker waits for the next one.
    pub fn finish(&mut self, id: usize, outcome: JobOutcome)
        requires
            old(self).wf(),
            old(self)@.enabled(Event::Finish(id as int, outcome)),
        ensures
            final(self).wf(),
            final(self)@ == old(self)@.next(Event::Finish(id as int, outcome)),
    {
        proof {
            law_invariant_step(self@, Event::Finish(id as int, outcome));
        }
        let mut worker = self.workers[id];
        worker.finish(outcome);
        self.workers.set(id, worker);
        self.finished = Ghost(self.finished@ + 1);
        self.faulted = Ghost(self.faulted@ + outcome.fault());
        assert(self@.workers =~= old(self)@.next(Event::Finish(id as int, outcome)).workers);
    }

    /// Begins teardown: from now on no job is accepted. Jobs that are pending
    /// are still taken and run; a worker that finds nothing pending leaves
    /// its loop instead of waiting. Teardown begins once.
    pub fn close(&mut self)
        requires
            old(self).wf(),
            old(self)@.enabled(Event::Close),
        ensures
            final(self).wf(),
            final(self)@ == old(self)@.next(Event::Close),
    {
        proof {
            law_invariant_step(self@, Event::Close);
        }
        self.channel.close();
        assert(self@.workers =~= old(self)@.workers);
    }

    /// The worker whose turn it is to be joined: the first, in the order of
    /// construction, that is not joined yet; `None` when all are.
    pub fn next_join(&self) -> (next: Option<usize>)
        requires
            self.wf(),
        ensures
            match next {
                Some(id) => self@.has_worker(id as int) && self@.joined_before(id as int)
                    && self@.workers[id as int] != WorkerState::Joined,
                None => self@.all_joined(),
            },
    {
        if self.joined < self.workers.len() {
            assert(self.workers@[self.joined as int].state != WorkerState::Joined);
            Some(self.joined)
        } else {
            None
        }
    }

    /// The pool has waited for the worker `id`, whose turn it was and whose
    /// loop had ended, and has reclaimed it.
    pub fn join(&mut self, id: usize)
        requires
            old(self).wf(),
            old(self)@.enabled(Event::Join(id as int)),
        ensures
            final(self).wf(),
            final(self)@ == old(self)@.next(Event::Join(id as int)),
    {
        proof {
            law_invariant_step(self@, Event::Join(id as int));
            if id < self.joined {
                assert(self.workers@[id as int].state == WorkerState::Joined);
            }
            if self.joined < id {
                assert(self@.workers[self.joined as int] == WorkerState::Joined);
                assert(self.workers@[self.joined as int].state == WorkerState::Joined);
            }
            assert(self.joined == id);
        }
        let mut worker = self.workers[id];
        worker.join();
        self.workers.set(id, worker);
        self.joined = self.joined + 1;
        assert(self@.workers =~= old(self)@.next(Event::Join(id as int)).workers);
    }

    /// Tears the pool down on the calling thread. Closes the channel, then
    /// takes the workers in the order of construction: each takes jobs and
    /// has them run by `run`, one after the other, until it finds the
    /// channel closed and drained, and is then joined. Returns when every
    /// job that was pending has been run once and every worker is joined.
    /// The caller sees to it that `run` takes each job that is pending; a
    /// job that `run` returns from has run through.
    pub fn shutdown<R: Fn(J)>(&mut self, run: R)
        requires
            old(self).wf(),
            old(self)@.channel.open,
            forall|k: int|
                0 <= k < old(self)@.workers.len() ==> old(self)@.workers[k]
                    != WorkerState::Executing,
            forall|i: int|
                0 <= i < old(self)@.channel.pending.len() ==> call_requires(
                    run,
                    (#[trigger] old(self)@.channel.pending[i],),
                ),
        ensures
            final(self).wf(),
            final(self)@.all_joined(),
            final(self)@.workers.len() == old(self)@.workers.len(),
            !final(self)@.channel.open,
            final(self)@.channel.pending.len() == 0,
            final(self)@.channel.sent == old(self)@.channel.sent,
            final(self)@.channel.taken == old(self)@.channel.sent,
            final(self)@.finished == old(self)@.channel.sent.len(),
            final(self)@.faulted == old(self)@.faulted,
            forall|i: int|
                0 <= i < old(self)@.channel.pending.len() ==> call_ensures(
                    run,
                    (#[trigger] old(self)@.channel.pending[i],),
                    (),
                ),
    {
        let ghost before = self@;
        proof {
            assert forall|k: int| 0 <= k < before.workers.len() implies before.workers[k]
                == WorkerState::Waiting by {
                assert(before.workers[k].is_running());
            }
            lemma_executing_none(before.workers);
        }
        self.close();
        let size = self.workers.len();
        let mut id: usize = 0;
        while id < size
            invariant
                self.wf(),
                id <= size,
                size == self@.workers.len(),
                size == before.workers.len(),
                !self@.channel.open,
                self@.channel.sent == before.channel.sent,
                before.channel.sent == before.channel.taken + before.channel.pending,
                before.channel.taken.len() <= self@.channel.taken.len(),
                self@.finished == self@.channel.taken.len(),
                self@.faulted == before.faulted,
                id > 0 ==> self@.channel.pending.len() == 0,
                forall|k: int| 0 <= k < id ==> self@.workers[k] == WorkerState::Joined,
                forall|k: int| id <= k < size ==> self@.workers[k] == WorkerState::Waiting,
                forall|i: int|
                    before.channel.taken.len() <= i < self@.channel.taken.len() ==> call_ensures(
                        run,
                        (#[trigger] self@.channel.taken[i],),
                        (),
                    ),
                forall|i: int|
                    0 <= i < self@.channel.pending.len() ==> call_requires(
                        run,
                        (#[trigger] self@.channel.pending[i],),
                    ),
            decreases size - id,
        {
            let mut draining = true;
            while draining
                invariant
                    self.wf(),
                    id < size,
                    size == self@.workers.len(),
                    !self@.channel.open,
                    self@.channel.sent == before.channel.sent,
                    before.channel.taken.len() <= self@.channel.taken.len(),
                    self@.finished == self@.channel.taken.len(),
                    self@.faulted == before.faulted,
                self@.faulted == before.faulted,
                    !draining ==> self@.channel.pending.len() == 0,
                    forall|k: int| 0 <= k < id ==> self@.workers[k] == WorkerState::Joined,
                    forall|k: int| id < k < size ==> self@.workers[k] == WorkerState::Waiting,
                    self@.workers[id as int] == (if draining {
                        WorkerState::Waiting
                    } else {
                        WorkerState::Terminating
                    }),
                    forall|i: int|
                        before.channel.taken.len() <= i < self@.channel.taken.len()
                            ==> call_ensures(run, (#[trigger] self@.channel.taken[i],), ()),
                    forall|i: int|
                        0 <= i < self@.channel.pending.len() ==> call_requires(
                            run,
                            (#[trigger] self@.channel.pending[i],),
                        ),
                decreases self@.channel.pending.len() + (if draining { 1nat } else { 0nat }),
            {
                let ghost taken = self@.channel.taken;
                let ghost pending = self@.channel.pending;
                match self.receive(id) {
                    Received::Job(job) => {
                        assert(job == pending[0]);
                        assert forall|i: int|
                            0 <= i < self@.channel.pending.len() implies call_requires(
                            run,
                            (#[trigger] self@.channel.pending[i],),
                        ) by {
                            assert(self@.channel.pending[i] == pending[i + 1]);
                        }
                        run(job);
                        self.finish(id, JobOutcome::Completed);
                        assert forall|i: int|
                            before.channel.taken.len() <= i < self@.channel.taken.len()
                            implies call_ensures(run, (#[trigger] self@.channel.taken[i],), ()) by {
                            if i < taken.len() {
                                assert(self@.channel.taken[i] == taken[i]);
                            }
                        }
                    },
                    Received::Empty => {
                        draining = false;
                    },
                    Received::Closed => {
                        draining = false;
                    },
                }
            }
            self.join(id);
            id += 1;
        }
        proof {
            self.lemma_wf_inv();
            assert(self@.channel.taken + self@.channel.pending =~= self@.channel.taken);
            assert forall|i: int| 0 <= i < before.channel.pending.len() implies call_ensures(
                run,
                (#[trigger] before.channel.pending[i],),
                (),
            ) by {
                let at = before.channel.taken.len() + i;
                assert(self@.channel.taken[at] == before.channel.pending[i]);
            }
        }
    }
}

} // verus!
