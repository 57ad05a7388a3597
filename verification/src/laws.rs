//! What holds of every pool, proved from the state machine alone.

use crate::channel::{lemma_recv_keeps_inv, lemma_send_keeps_inv, Received};
use crate::model::{executing, total_rank, Event, JobOutcome, PoolView, WorkerState};
use vstd::prelude::*;

verus! {

/// Changing one worker's state changes the number of jobs in hand by the
/// difference between the two states.
pub proof fn lemma_executing_update(workers: Seq<WorkerState>, k: int, state: WorkerState)
    requires
        0 <= k < workers.len(),
    ensures
        executing(workers.update(k, state)) + workers[k].in_hand() == executing(workers)
            + state.in_hand(),
    decreases workers.len(),
{
    let changed = workers.update(k, state);
    if k == workers.len() - 1 {
        assert(changed.drop_last() =~= workers.drop_last());
    } else {
        assert(changed.drop_last() =~= workers.drop_last().update(k, state));
        lemma_executing_update(workers.drop_last(), k, state);
    }
}

/// Changing one worker's state changes the sum of the ranks by the difference
/// between the two ranks.
pub proof fn lemma_total_rank_update(workers: Seq<WorkerState>, k: int, state: WorkerState)
    requires
        0 <= k < workers.len(),
    ensures
        total_rank(workers.update(k, state)) + workers[k].rank() == total_rank(workers)
            + state.rank(),
    decreases workers.len(),
{
    let changed = workers.update(k, state);
    if k == workers.len() - 1 {
        assert(changed.drop_last() =~= workers.drop_last());
    } else {
        assert(changed.drop_last() =~= workers.drop_last().update(k, state));
        lemma_total_rank_update(workers.drop_last(), k, state);
    }
}

/// Workers of which none has a job in hand hold no job between them.
pub proof fn lemma_executing_none(workers: Seq<WorkerState>)
    requires
        forall|k: int| 0 <= k < workers.len() ==> workers[k] != WorkerState::Executing,
    ensures
        executing(workers) == 0,
    decreases workers.len(),
{
    if workers.len() > 0 {
        lemma_executing_none(workers.drop_last());
    }
}

/// Joined workers add nothing to the sum of the ranks.
pub proof fn lemma_total_rank_joined(workers: Seq<WorkerState>)
    requires
        forall|k: int| 0 <= k < workers.len() ==> workers[k] == WorkerState::Joined,
    ensures
        total_rank(workers) == 0,
    decreases workers.len(),
{
    if workers.len() > 0 {
        lemma_total_rank_joined(workers.drop_last());
    }
}

/// A pool that was constructed with at least one worker has exactly that
/// many workers, all of them waiting, and satisfies the invariant.
pub proof fn law_construction<J>(size: nat)
    requires
        size >= 1,
    ensures
        PoolView::<J>::initial(size).workers.len() == size,
        forall|k: int|
            0 <= k < size ==> PoolView::<J>::initial(size).workers[k] == WorkerState::Waiting,
        PoolView::<J>::initial(size).channel.open,
        PoolView::<J>::initial(size).inv(),
{
    let pool = PoolView::<J>::initial(size);
    lemma_executing_none(pool.workers);
    assert(pool.channel.sent =~= pool.channel.taken + pool.channel.pending);
}

/// A pool is nothing without workers: a state with none does not satisfy
/// the invariant, so no pool of size zero is ever reached.
pub proof fn law_no_pool_without_workers<J>(pool: PoolView<J>)
    requires
        pool.workers.len() == 0,
    ensures
        !pool.inv(),
        PoolView::<J>::initial(0).workers.len() == 0,
        !PoolView::<J>::initial(0).inv(),
{
}

/// No event that can happen breaks the invariant.
pub proof fn law_invariant_step<J>(pool: PoolView<J>, event: Event<J>)
    requires
        pool.inv(),
        pool.enabled(event),
    ensures
        pool.next(event).inv(),
{
    let after = pool.next(event);
    match event {
        Event::Submit(job) => {
            lemma_send_keeps_inv(pool.channel, job);
        },
        Event::Receive(k) => {
            lemma_recv_keeps_inv(pool.channel);
            lemma_executing_update(pool.workers, k, pool.after_receive());
        },
        Event::Finish(k, _) => {
            lemma_executing_update(pool.workers, k, WorkerState::Waiting);
        },
        Event::Close => {},
        Event::Join(k) => {
            lemma_executing_update(pool.workers, k, WorkerState::Joined);
            assert forall|i: int, j: int|
                0 <= i < j < after.workers.len() && #[trigger] after.workers[j]
                    == WorkerState::Joined implies #[trigger] after.workers[i]
                == WorkerState::Joined by {
                if j != k {
                    assert(pool.workers[j] == WorkerState::Joined);
                    assert(pool.workers[i] == WorkerState::Joined);
                }
            }
        },
    }
}

/// Every state that a pool reaches from its construction satisfies the
/// invariant, whatever the order in which callers and workers act.
pub proof fn law_invariant_always<J>(size: nat, trace: Seq<Event<J>>)
    requires
        size >= 1,
        PoolView::<J>::initial(size).admits(trace),
    ensures
        PoolView::<J>::initial(size).run(trace).inv(),
    decreases trace.len(),
{
    let start = PoolView::<J>::initial(size);
    if trace.len() == 0 {
        law_construction::<J>(size);
    } else {
        law_invariant_always(size, trace.drop_last());
        law_invariant_step(start.run(trace.drop_last()), trace.last());
    }
}

/// The number of workers never changes.
pub proof fn law_size_is_fixed<J>(pool: PoolView<J>, event: Event<J>)
    requires
        pool.enabled(event),
    ensures
        pool.next(event).workers.len() == pool.workers.len(),
{
}

/// At every moment the jobs that were handed out are the first of the
/// accepted jobs, in the order of acceptance, and the pending ones are the
/// rest: none is handed out twice, none is lost, none overtakes another.
pub proof fn law_first_in_first_out<J>(pool: PoolView<J>)
    requires
        pool.inv(),
    ensures
        pool.channel.taken.len() + pool.channel.pending.len() == pool.channel.sent.len(),
        pool.channel.taken == pool.channel.sent.subrange(0, pool.channel.taken.len() as int),
        pool.channel.pending == pool.channel.sent.subrange(
            pool.channel.taken.len() as int,
            pool.channel.sent.len() as int,
        ),
{
    let c = pool.channel;
    assert(c.taken =~= (c.taken + c.pending).subrange(0, c.taken.len() as int));
    assert(c.pending =~= (c.taken + c.pending).subrange(
        c.taken.len() as int,
        (c.taken + c.pending).len() as int,
    ));
}

/// Once every worker has been joined, every job that was ever accepted has
/// been handed to a worker exactly once and has run to its end.
pub proof fn law_every_job_runs_once<J>(pool: PoolView<J>)
    requires
        pool.inv(),
        pool.all_joined(),
    ensures
        pool.channel.pending.len() == 0,
        pool.channel.taken == pool.channel.sent,
        pool.finished == pool.channel.sent.len(),
{
    assert(!pool.workers[0].is_running());
    lemma_executing_none(pool.workers);
    assert(pool.channel.taken + pool.channel.pending =~= pool.channel.taken);
}

/// However callers and workers take their turns from the construction of
/// a pool on: once every worker has been joined, every job that the pool
/// accepted has been handed out once, in the order of acceptance, and has
/// run to its end.
pub proof fn law_all_accepted_jobs_run<J>(size: nat, trace: Seq<Event<J>>)
    requires
        size >= 1,
        PoolView::<J>::initial(size).admits(trace),
        PoolView::<J>::initial(size).run(trace).all_joined(),
    ensures
        PoolView::<J>::initial(size).run(trace).channel.taken == PoolView::<J>::initial(
            size,
        ).run(trace).channel.sent,
        PoolView::<J>::initial(size).run(trace).finished == PoolView::<J>::initial(size).run(
            trace,
        ).channel.sent.len(),
        PoolView::<J>::initial(size).run(trace).channel.pending.len() == 0,
{
    law_invariant_always(size, trace);
    law_every_job_runs_once(PoolView::<J>::initial(size).run(trace));
}

/// A job that is submitted after teardown has begun leaves the pool as it
/// was: it is not queued, so no worker ever takes it.
pub proof fn law_submit_after_close<J>(pool: PoolView<J>, job: J)
    requires
        !pool.channel.open,
    ensures
        pool.next(Event::Submit(job)) == pool,
{
}

/// Closing is for good: no event opens the channel again.
pub proof fn law_closed_stays_closed<J>(pool: PoolView<J>, event: Event<J>)
    requires
        !pool.channel.open,
        pool.enabled(event),
    ensures
        !pool.next(event).channel.open,
{
}

/// Once teardown has begun a worker is never made to wait: it finds a job
/// or it finds the channel closed.
pub proof fn law_closed_never_blocks<J>(pool: PoolView<J>)
    requires
        !pool.channel.open,
    ensures
        pool.channel.front() != Received::<J>::Empty,
        pool.after_receive() != WorkerState::Waiting,
{
}

/// A worker that waits when teardown begins, or that comes to wait after
/// it, leaves its loop as soon as it finds nothing pending.
pub proof fn law_idle_worker_leaves<J>(pool: PoolView<J>, k: int)
    requires
        !pool.channel.open,
        pool.channel.pending.len() == 0,
        pool.enabled(Event::Receive(k)),
    ensures
        pool.next(Event::Receive(k)).workers[k] == WorkerState::Terminating,
        pool.next(Event::Receive(k)).channel == pool.channel,
{
}

/// Only a caller's submission adds a job: no worker ever puts a job back,
/// and neither teardown nor joining touches what was accepted.
pub proof fn law_workers_never_requeue<J>(pool: PoolView<J>, event: Event<J>)
    requires
        pool.enabled(event),
        !(event is Submit),
    ensures
        pool.next(event).channel.sent == pool.channel.sent,
        pool.next(event).channel.pending.len() <= pool.channel.pending.len(),
{
}

/// Once teardown has begun and as long as a worker is left to join, the
/// first such worker can always move: it can take what the channel holds,
/// its job can come to its end, or it can be joined.
pub proof fn law_teardown_can_go_on<J>(pool: PoolView<J>) -> (k: int)
    requires
        pool.inv(),
        !pool.channel.open,
        !pool.all_joined(),
    ensures
        pool.has_worker(k),
        pool.joined_before(k),
        pool.workers[k] != WorkerState::Joined,
        pool.workers[k] == WorkerState::Waiting ==> pool.enabled(Event::Receive(k)),
        pool.workers[k] == WorkerState::Executing ==> pool.enabled(
            Event::Finish(k, JobOutcome::Completed),
        ) && pool.enabled(Event::Finish(k, JobOutcome::Faulted)),
        pool.workers[k] == WorkerState::Terminating ==> pool.enabled(Event::Join(k)),
{
    let first = choose|k: int| 0 <= k < pool.workers.len() && pool.workers[k] != WorkerState::Joined;
    lemma_first_unjoined(pool.workers, first)
}

/// Before any worker that is not joined stands a first one.
proof fn lemma_first_unjoined(workers: Seq<WorkerState>, some: int) -> (k: int)
    requires
        0 <= some < workers.len(),
        workers[some] != WorkerState::Joined,
    ensures
        0 <= k <= some,
        workers[k] != WorkerState::Joined,
        forall|j: int| 0 <= j < k ==> workers[j] == WorkerState::Joined,
    decreases some,
{
    if exists|j: int| 0 <= j < some && workers[j] != WorkerState::Joined {
        let earlier = choose|j: int| 0 <= j < some && workers[j] != WorkerState::Joined;
        lemma_first_unjoined(workers, earlier)
    } else {
        some
    }
}

/// Once teardown has begun, every step of a worker or of the joining pool
/// brings the end nearer: teardown cannot go on for ever.
pub proof fn law_teardown_step_counts<J>(pool: PoolView<J>, event: Event<J>)
    requires
        pool.inv(),
        !pool.channel.open,
        pool.enabled(event),
        !(event is Submit),
    ensures
        pool.next(event).remaining() < pool.remaining(),
{
    match event {
        Event::Submit(_) => {},
        Event::Receive(k) => {
            lemma_total_rank_update(pool.workers, k, pool.after_receive());
        },
        Event::Finish(k, _) => {
            lemma_total_rank_update(pool.workers, k, WorkerState::Waiting);
        },
        Event::Close => {},
        Event::Join(k) => {
            lemma_total_rank_update(pool.workers, k, WorkerState::Joined);
        },
    }
}

/// Once teardown has begun, the workers and the joining pool can take no
/// more steps between them than `remaining` says, in whatever order they
/// take them: teardown comes to an end.
pub proof fn law_teardown_is_bounded<J>(pool: PoolView<J>, trace: Seq<Event<J>>)
    requires
        pool.inv(),
        !pool.channel.open,
        pool.admits(trace),
        forall|i: int| 0 <= i < trace.len() ==> !(trace[i] is Submit),
    ensures
        pool.run(trace).inv(),
        !pool.run(trace).channel.open,
        trace.len() + pool.run(trace).remaining() <= pool.remaining(),
    decreases trace.len(),
{
    if trace.len() > 0 {
        let before = trace.drop_last();
        assert forall|i: int| 0 <= i < before.len() implies !(before[i] is Submit) by {
            assert(before[i] == trace[i]);
        }
        law_teardown_is_bounded(pool, before);
        law_invariant_step(pool.run(before), trace.last());
        law_teardown_step_counts(pool.run(before), trace.last());
    }
}

/// Teardown is over exactly when nothing remains to be done.
pub proof fn law_teardown_ends<J>(pool: PoolView<J>)
    requires
        pool.inv(),
        pool.all_joined(),
    ensures
        pool.remaining() == 0,
{
    assert(!pool.workers[0].is_running());
    lemma_total_rank_joined(pool.workers);
}

/// A job that faults costs the pool no worker: the worker that ran it
/// waits for the next job as after any other, every other worker is where
/// it was, and nothing that waits in the channel is touched.
pub proof fn law_fault_costs_no_worker<J>(pool: PoolView<J>, k: int)
    requires
        pool.enabled(Event::Finish(k, JobOutcome::Faulted)),
    ensures
        pool.next(Event::Finish(k, JobOutcome::Faulted)).workers == pool.next(
            Event::Finish(k, JobOutcome::Completed),
        ).workers,
        pool.next(Event::Finish(k, JobOutcome::Faulted)).workers[k] == WorkerState::Waiting,
        pool.next(Event::Finish(k, JobOutcome::Faulted)).workers.len() == pool.workers.len(),
        pool.next(Event::Finish(k, JobOutcome::Faulted)).channel == pool.channel,
        pool.next(Event::Finish(k, JobOutcome::Faulted)).finished == pool.finished + 1,
        pool.next(Event::Finish(k, JobOutcome::Faulted)).faulted == pool.faulted + 1,
        pool.next(Event::Finish(k, JobOutcome::Completed)).faulted == pool.faulted,
{
}

/// A worker is joined at most once, and a joined worker stays joined: no
/// event can happen to it any more.
pub proof fn law_joined_is_final<J>(pool: PoolView<J>, event: Event<J>, k: int)
    requires
        pool.has_worker(k),
        pool.workers[k] == WorkerState::Joined,
        pool.enabled(event),
    ensures
        !pool.enabled(Event::Join(k)),
        !pool.enabled(Event::Receive(k)),
        !pool.enabled(Event::Finish(k, JobOutcome::Completed)),
        !pool.enabled(Event::Finish(k, JobOutcome::Faulted)),
        pool.next(event).workers[k] == WorkerState::Joined,
{
}

/// Joining a worker changes that worker from terminating to joined and
/// touches no other worker, no job and no count.
pub proof fn law_join_reclaims_one<J>(pool: PoolView<J>, k: int)
    requires
        pool.enabled(Event::Join(k)),
    ensures
        pool.workers[k] == WorkerState::Terminating,
        pool.next(Event::Join(k)).workers[k] == WorkerState::Joined,
        forall|j: int|
            0 <= j < pool.workers.len() && j != k ==> pool.next(Event::Join(k)).workers[j]
                == pool.workers[j],
        pool.next(Event::Join(k)).channel == pool.channel,
        pool.next(Event::Join(k)).finished == pool.finished,
        pool.next(Event::Join(k)).faulted == pool.faulted,
{
}

/// Two jobs that are submitted one after the other to an open pool are both
/// queued, the first before the second, behind what was pending before.
pub proof fn law_back_to_back<J>(pool: PoolView<J>, first: J, second: J)
    requires
        pool.channel.open,
    ensures
        pool.next(Event::Submit(first)).next(Event::Submit(second)).channel.pending
            == pool.channel.pending.push(first).push(second),
        pool.next(Event::Submit(first)).next(Event::Submit(second)).channel.sent
            == pool.channel.sent.push(first).push(second),
        pool.next(Event::Submit(first)).next(Event::Submit(second)).channel.taken
            == pool.channel.taken,
{
}

/// A worker runs one job at a time: while it has a job in hand it does not
/// go to the consumption point, so the next job waits for the first to end.
pub proof fn law_one_job_at_a_time<J>(pool: PoolView<J>, k: int, outcome: JobOutcome)
    requires
        pool.enabled(Event::Receive(k)),
        pool.channel.pending.len() > 0,
    ensures
        pool.next(Event::Receive(k)).workers[k] == WorkerState::Executing,
        !pool.next(Event::Receive(k)).enabled(Event::Receive(k)),
        pool.next(Event::Receive(k)).enabled(Event::Finish(k, outcome)),
        pool.next(Event::Receive(k)).next(Event::Finish(k, outcome)).workers[k]
            == WorkerState::Waiting,
{
}

} // verus!
