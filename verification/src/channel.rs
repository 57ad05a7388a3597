//! The job channel: an unbounded first-in, first-out hand-off between the
//! pool and its workers, with a one-way transition from open to closed.
//!
//! The channel is a plain value. Whoever shares it between threads guards it
//! with one lock, so that at most one consumer is at the consumption point at
//! a time.

use std::collections::VecDeque;
use vstd::prelude::*;

verus! {

/// What a consumer finds at the consumption point.
pub enum Received<J> {
    /// The oldest pending job. The consumer owns it from here on.
    Job(J),
    /// Nothing is pending and the channel is open: the consumer has to wait.
    Empty,
    /// Nothing is pending and the channel is closed: nothing will ever come.
    Closed,
}

/// The mathematical state of a channel, together with its history.
pub struct ChannelView<J> {
    /// The jobs that were accepted and not yet handed out, oldest first.
    pub pending: Seq<J>,
    /// Whether new jobs are still accepted.
    pub open: bool,
    /// Every job that was ever accepted, in the order of acceptance.
    pub sent: Seq<J>,
    /// Every job that was ever handed to a consumer, in the order of hand-out.
    pub taken: Seq<J>,
}

impl<J> ChannelView<J> {
    /// Each accepted job is either handed out or pending, never both and
    /// never twice, and jobs leave in the order in which they came.
    pub open spec fn inv(self) -> bool {
        self.sent == self.taken + self.pending
    }

    /// An open channel that nothing has passed through.
    pub open spec fn fresh() -> Self {
        ChannelView { pending: Seq::empty(), open: true, sent: Seq::empty(), taken: Seq::empty() }
    }

    /// The state after an attempt to send `job`: an open channel queues it
    /// behind everything pending, a closed channel is left as it was.
    pub open spec fn send(self, job: J) -> Self {
        if self.open {
            ChannelView { pending: self.pending.push(job), sent: self.sent.push(job), ..self }
        } else {
            self
        }
    }

    /// What the next consumer finds.
    pub open spec fn front(self) -> Received<J> {
        if self.pending.len() > 0 {
            Received::Job(self.pending[0])
        } else if self.open {
            Received::Empty
        } else {
            Received::Closed
        }
    }

    /// The state after one consumer has been at the consumption point: the
    /// oldest pending job, if there is one, has been handed out.
    pub open spec fn recv(self) -> Self {
        if self.pending.len() > 0 {
            ChannelView {
                pending: self.pending.subrange(1, self.pending.len() as int),
                taken: self.taken.push(self.pending[0]),
                ..self
            }
        } else {
            self
        }
    }

    /// The state after closing: pending jobs stay, new ones are refused.
    pub open spec fn close(self) -> Self {
        ChannelView { open: false, ..self }
    }
}

/// Sending keeps the channel's invariant.
pub proof fn lemma_send_keeps_inv<J>(c: ChannelView<J>, job: J)
    requires
        c.inv(),
    ensures
        c.send(job).inv(),
{
    if c.open {
        assert(c.sent.push(job) =~= c.taken + c.pending.push(job));
    }
}

/// Receiving keeps the channel's invariant.
pub proof fn lemma_recv_keeps_inv<J>(c: ChannelView<J>)
    requires
        c.inv(),
    ensures
        c.recv().inv(),
{
    if c.pending.len() > 0 {
        let rest = c.pending.subrange(1, c.pending.len() as int);
        assert(c.taken + c.pending =~= c.taken.push(c.pending[0]) + rest);
    }
}

/// An unbounded queue of jobs with an explicit closed state.
pub struct JobChannel<J> {
    pending: VecDeque<J>,
    open: bool,
    sent: Ghost<Seq<J>>,
    taken: Ghost<Seq<J>>,
}

impl<J> View for JobChannel<J> {
    type V = ChannelView<J>;

    closed spec fn view(&self) -> ChannelView<J> {
        ChannelView {
            pending: self.pending@,
            open: self.open,
            sent: self.sent@,
            taken: self.taken@,
        }
    }
}

impl<J> JobChannel<J> {
    /// The history kept beside the queue agrees with the queue.
    pub open spec fn wf(&self) -> bool {
        self@.inv()
    }

    /// Opens a channel with nothing in it.
    pub fn new() -> (channel: Self)
        ensures
            channel.wf(),
            channel@ == ChannelView::<J>::fresh(),
    {
        let channel = JobChannel {
            pending: VecDeque::new(),
            open: true,
            sent: Ghost(Seq::empty()),
            taken: Ghost(Seq::empty()),
        };
        assert(channel@.sent =~= channel@.taken + channel@.pending);
        channel
    }

    /// Queues `job` behind everything pending. A closed channel takes
    /// nothing: the job comes back in `Err` and the channel is unchanged.
    pub fn send(&mut self, job: J) -> (sent: Result<(), J>)
        requires
            old(self).wf(),
        ensures
            final(self).wf(),
            final(self)@ == old(self)@.send(job),
            sent == (if old(self)@.open {
                Ok::<(), J>(())
            } else {
                Err::<(), J>(job)
            }),
    {
        if self.open {
            proof {
                lemma_send_keeps_inv(self@, job);
            }
            self.sent = Ghost(self.sent@.push(job));
            self.pending.push_back(job);
            Ok(())
        } else {
            Err(job)
        }
    }

    /// Hands out the oldest pending job. With nothing pending it tells an
    /// open channel, on which the consumer has to wait, from a closed one.
    pub fn recv(&mut self) -> (received: Received<J>)
        requires
            old(self).wf(),
        ensures
            final(self).wf(),
            final(self)@ == old(self)@.recv(),
            received == old(self)@.front(),
    {
        proof {
            lemma_recv_keeps_inv(self@);
        }
        match self.pending.pop_front() {
            Some(job) => {
                self.taken = Ghost(self.taken@.push(job));
                Received::Job(job)
            },
            None => {
                if self.open {
                    Received::Empty
                } else {
                    Received::Closed
                }
            },
        }
    }

    /// Closes the channel for good. What is pending can still be received.
    pub fn close(&mut self)
        requires
            old(self).wf(),
        ensures
            final(self).wf(),
            final(self)@ == old(self)@.close(),
    {
        self.open = false;
    }

    /// Whether the channel still accepts jobs.
    pub fn is_open(&self) -> (open: bool)
        ensures
            open == self@.open,
    {
        self.open
    }

    /// The number of jobs that wait to be received.
    pub fn len(&self) -> (len: usize)
        ensures
            len == self@.pending.len(),
    {
        self.pending.len()
    }
}

} // verus!
