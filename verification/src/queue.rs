//! The admission queue: a first-in, first-out ledger of waiting job ids.
//!
//! The queue stores only identifiers. Its mathematical model is the sequence
//! of ids from the head to the tail; a job's position is the zero-based index
//! of its first occurrence, and position 0 means the job may run.

use crate::error::QueueError;
use crate::job::JobId;
use crate::ledger::{
    lemma_position_in, lemma_position_is, lemma_push_position, other_than, position_in, without,
};
use std::collections::VecDeque;
use vstd::prelude::*;

verus! {

/// Waiting job ids in arrival order.
pub struct JobQueue {
    queue: VecDeque<JobId>,
}

impl View for JobQueue {
    type V = Seq<JobId>;

    closed spec fn view(&self) -> Seq<JobId> {
        self.queue@
    }
}

impl JobQueue {
    /// An empty queue.
    pub fn new() -> (q: JobQueue)
        ensures
            q@ == Seq::<JobId>::empty(),
    {
        JobQueue { queue: VecDeque::new() }
    }

    /// Number of waiting jobs.
    pub fn len(&self) -> (n: usize)
        ensures
            n == self@.len(),
    {
        self.queue.len()
    }

    /// Whether nobody is waiting.
    pub fn is_empty(&self) -> (b: bool)
        ensures
            b == (self@.len() == 0),
    {
        self.queue.len() == 0
    }

    /// Appends `id` at the tail. Every id that was waiting keeps its place.
    pub fn push(&mut self, id: JobId)
        ensures
            final(self)@ == old(self)@.push(id),
    {
        self.queue.push_back(id);
    }

    /// Position of `id` counted from the head, or `None` when it is not
    /// waiting. The whole scan reads one state of the queue.
    pub fn position(&self, id: JobId) -> (r: Option<usize>)
        ensures
            match r {
                Some(i) => position_in(self@, id) == Some(i as int),
                None => position_in(self@, id) is None,
            },
    {
        let n = self.queue.len();
        let mut i: usize = 0;
        while i < n
            invariant
                n == self.queue@.len(),
                i <= n,
                forall|j: int| 0 <= j < i ==> self.queue@[j] != id,
            decreases n - i,
        {
            if self.queue[i] == id {
                proof {
                    lemma_position_is(self@, id, i as int);
                }
                return Some(i);
            }
            i += 1;
        }
        proof {
            lemma_position_in(self@, id);
            if self@.contains(id) {
                let k = choose|k: int| 0 <= k < self@.len() && self@[k] == id;
                assert(self.queue@[k] != id);
            }
        }
        None
    }

    /// Takes the head out and returns it; `None`, and nothing changes, when
    /// the queue is empty.
    pub fn pop_front(&mut self) -> (head: Option<JobId>)
        ensures
            match head {
                Some(id) => old(self)@.len() > 0 && id == old(self)@[0] && final(self)@ == old(
                    self,
                )@.drop_first(),
                None => old(self)@.len() == 0 && final(self)@ == old(self)@,
            },
    {
        self.queue.pop_front()
    }

    /// Takes every occurrence of `id` out, wherever it stands. The other ids
    /// keep their order; an absent `id` leaves the queue as it was.
    pub fn remove(&mut self, id: JobId)
        ensures
            final(self)@ == without(old(self)@, id),
    {
        let n = self.queue.len();
        let mut kept: VecDeque<JobId> = VecDeque::new();
        let mut i: usize = 0;
        proof {
            reveal(Seq::filter);
            assert(self.queue@.take(0) =~= Seq::<JobId>::empty());
        }
        while i < n
            invariant
                n == self.queue@.len(),
                i <= n,
                self.queue@ == old(self)@,
                kept@ == without(self.queue@.take(i as int), id),
            decreases n - i,
        {
            let other = self.queue[i];
            proof {
                let front = self.queue@.take(i as int);
                assert(self.queue@.take(i + 1) =~= front.push(other));
                front.lemma_filter_push(other, other_than(id));
            }
            if other != id {
                kept.push_back(other);
            }
            i += 1;
        }
        proof {
            assert(self.queue@.take(n as int) =~= self.queue@);
        }
        self.queue = kept;
    }
}

/// What a waiting caller does next.
#[derive(Clone, Copy, Debug, PartialEq, Eq, Structural)]
pub enum WaitStep {
    /// The job is at the head: the wait is over.
    Ready,
    /// The job is still behind others. Tell the requester this position,
    /// pause, and look again.
    Report(usize),
    /// The wait cannot go on.
    Failed(QueueError),
}

/// The answer that the wait protocol gives to one look at the queue.
pub open spec fn wait_step(position: Option<int>) -> WaitStep {
    match position {
        Some(n) => if n == 0 {
            WaitStep::Ready
        } else {
            WaitStep::Report(n as usize)
        },
        None => WaitStep::Failed(QueueError::Vanished),
    }
}

impl JobQueue {
    /// Puts `job` at the tail and hands out the guard that will take it out
    /// again, together with the position to report at once.
    pub fn enqueue(&mut self, job: JobId) -> (ticket: (QueueGuard, usize))
        ensures
            final(self)@ == old(self)@.push(job),
            ticket.0.job() == job,
            ticket.0.armed(),
            position_in(final(self)@, job) == Some(ticket.1 as int),
    {
        let position = match self.position(job) {
            Some(earlier) => earlier,
            None => self.len(),
        };
        proof {
            lemma_position_in(self@, job);
            lemma_push_position(self@, job);
        }
        self.push(job);
        (QueueGuard::new(job), position)
    }

    /// One look at the queue on behalf of a caller that waits for `job`:
    /// at the head the wait is over, behind others the position is to be
    /// reported, and a job that is no longer queued fails its request.
    pub fn wait(&self, job: JobId) -> (step: WaitStep)
        ensures
            step == wait_step(position_in(self@, job)),
    {
        match self.position(job) {
            Some(position) => {
                if position == 0 {
                    WaitStep::Ready
                } else {
                    WaitStep::Report(position)
                }
            },
            None => WaitStep::Failed(QueueError::Vanished),
        }
    }
}

/// The duty to take one job out of the queue when its caller stops waiting,
/// however that comes about. It is carried out once: after it fired, the
/// guard touches no queue again.
#[derive(Debug)]
pub struct QueueGuard {
    job: JobId,
    armed: bool,
}

impl QueueGuard {
    /// The job that this guard takes out.
    pub closed spec fn job(self) -> JobId {
        self.job
    }

    /// Whether the removal is still owed.
    pub closed spec fn armed(self) -> bool {
        self.armed
    }

    /// A guard that owes the removal of `job`.
    pub fn new(job: JobId) -> (guard: QueueGuard)
        ensures
            guard.job() == job,
            guard.armed(),
    {
        QueueGuard { job, armed: true }
    }

    /// The job that this guard takes out.
    pub fn target(&self) -> (job: JobId)
        ensures
            job == self.job(),
    {
        self.job
    }

    /// Whether the removal is still owed.
    pub fn is_armed(&self) -> (armed: bool)
        ensures
            armed == self.armed(),
    {
        self.armed
    }

    /// Carries the duty out: takes the guard's job out of `queue`, and no
    /// other. A job that has left already is not an error, and a guard that
    /// has fired before leaves the queue alone.
    pub fn fire(&mut self, queue: &mut JobQueue)
        ensures
            final(self).job() == old(self).job(),
            !final(self).armed(),
            final(queue)@ == if old(self).armed() {
                without(old(queue)@, old(self).job())
            } else {
                old(queue)@
            },
    {
        if self.armed {
            queue.remove(self.job);
            self.armed = false;
        }
    }
}

impl Default for JobQueue {
    fn default() -> (q: JobQueue)
        ensures
            q@ == Seq::<JobId>::empty(),
    {
        JobQueue::new()
    }
}

} // verus!
