//! The admission gate: a pool of permits that bounds how many transforms run
//! at the same time, whatever the order of the queue.

use crate::error::QueueError;
use crate::job::JobId;
use crate::queue::JobQueue;
use vstd::prelude::*;

verus! {

/// Number of transforms that may run side by side where nothing else is
/// configured.
pub const DEFAULT_CAPACITY: usize = 2;

/// A counting pool of `capacity` permits, `held` of them given out.
pub struct AdmissionGate {
    capacity: usize,
    held: usize,
}

/// One permit out of a gate's pool. It goes back to the pool once: after it
/// was released, the permit touches no gate again.
#[derive(Debug, PartialEq, Eq)]
pub struct Permit {
    live: bool,
}

/// How an attempt to start a job ended.
#[derive(Debug, PartialEq, Eq)]
pub enum Admission {
    /// The job holds this permit and has left the head of the queue: its
    /// transform may run.
    Admitted(Permit),
    /// Every permit is held. Nothing changed; try again when one is free.
    Busy,
    /// The queue did not serve the job: the request fails.
    Refused(QueueError),
}

impl AdmissionGate {
    #[verifier::type_invariant]
    spec fn bounded(self) -> bool {
        self.held <= self.capacity
    }

    /// Number of permits in the pool.
    pub closed spec fn capacity(self) -> nat {
        self.capacity as nat
    }

    /// Number of permits given out and not yet returned.
    pub closed spec fn held(self) -> nat {
        self.held as nat
    }

    /// A gate with `capacity` permits, none of them held.
    pub fn new(capacity: usize) -> (gate: AdmissionGate)
        ensures
            gate.capacity() == capacity,
            gate.held() == 0,
    {
        AdmissionGate { capacity, held: 0 }
    }

    /// Number of permits in the pool.
    pub fn total(&self) -> (n: usize)
        ensures
            n == self.capacity(),
    {
        self.capacity
    }

    /// Number of permits given out. It never exceeds the capacity.
    pub fn in_use(&self) -> (n: usize)
        ensures
            n == self.held(),
            n <= self.capacity(),
    {
        proof {
            use_type_invariant(self);
        }
        self.held
    }

    /// Number of permits that are free.
    pub fn available(&self) -> (n: usize)
        ensures
            n == self.capacity() - self.held(),
    {
        proof {
            use_type_invariant(self);
        }
        self.capacity - self.held
    }

    /// Takes one permit if one is free. Never gives out more than the
    /// capacity.
    pub fn try_acquire(&mut self) -> (permit: Option<Permit>)
        ensures
            permit is Some <==> old(self).held() < old(self).capacity(),
            permit matches Some(p) ==> p.live(),
            final(self).capacity() == old(self).capacity(),
            final(self).held() == old(self).held() + if permit is Some { 1nat } else { 0nat },
            final(self).held() <= final(self).capacity(),
    {
        proof {
            use_type_invariant(&*self);
        }
        if self.held < self.capacity {
            self.held = self.held + 1;
            Some(Permit { live: true })
        } else {
            None
        }
    }

    /// Puts one permit back into the pool. With no permit out, nothing
    /// changes.
    fn take_back(&mut self)
        ensures
            final(self).capacity() == old(self).capacity(),
            final(self).held() == if old(self).held() > 0 { old(self).held() - 1 } else { 0 },
    {
        proof {
            use_type_invariant(&*self);
        }
        if self.held > 0 {
            self.held = self.held - 1;
        }
    }

    /// Starts `job`, which its caller saw at the head of `queue`. A permit
    /// is taken first; only then is the head popped and held against `job`.
    /// Where the head is another job, or the queue is empty, the queue has
    /// served out of order: the permit goes back and the request is refused.
    pub fn start(&mut self, queue: &mut JobQueue, job: JobId) -> (outcome: Admission)
        ensures
            final(self).capacity() == old(self).capacity(),
            final(self).held() <= final(self).capacity(),
            match outcome {
                Admission::Busy => {
                    &&& old(self).held() == old(self).capacity()
                    &&& final(self).held() == old(self).held()
                    &&& final(queue)@ == old(queue)@
                },
                Admission::Admitted(permit) => {
                    &&& permit.live()
                    &&& old(self).held() < old(self).capacity()
                    &&& final(self).held() == old(self).held() + 1
                    &&& old(queue)@.len() > 0
                    &&& old(queue)@[0] == job
                    &&& final(queue)@ == old(queue)@.drop_first()
                },
                Admission::Refused(why) => {
                    &&& why == QueueError::OutOfOrder
                    &&& old(self).held() < old(self).capacity()
                    &&& final(self).held() == old(self).held()
                    &&& old(queue)@.len() == 0 || old(queue)@[0] != job
                    &&& final(queue)@ == if old(queue)@.len() == 0 {
                        old(queue)@
                    } else {
                        old(queue)@.drop_first()
                    }
                },
            },
    {
        let mut permit = match self.try_acquire() {
            Some(permit) => permit,
            None => {
                return Admission::Busy;
            },
        };
        match queue.pop_front() {
            Some(head) => {
                if head == job {
                    Admission::Admitted(permit)
                } else {
                    permit.release(self);
                    Admission::Refused(QueueError::OutOfOrder)
                }
            },
            None => {
                permit.release(self);
                Admission::Refused(QueueError::OutOfOrder)
            },
        }
    }
}

impl Permit {
    /// Whether the permit is still out of its pool.
    pub closed spec fn live(self) -> bool {
        self.live
    }

    /// Whether the permit is still out of its pool.
    pub fn is_live(&self) -> (live: bool)
        ensures
            live == self.live(),
    {
        self.live
    }

    /// Gives the permit back to `pool`. A permit that was given back before
    /// leaves the pool alone.
    pub fn release(&mut self, pool: &mut AdmissionGate)
        ensures
            !final(self).live(),
            final(pool).capacity() == old(pool).capacity(),
            final(pool).held() == if old(self).live() && old(pool).held() > 0 {
                old(pool).held() - 1
            } else {
                old(pool).held() as int
            },
            final(pool).held() <= final(pool).capacity(),
    {
        proof {
            use_type_invariant(&*pool);
        }
        if self.live {
            pool.take_back();
            self.live = false;
        }
    }
}

} // verus!
