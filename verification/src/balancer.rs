//! The routing rule of the worker pool: round-robin over bounded queues,
//! passing over a worker whose queue is full.

use vstd::prelude::*;

verus! {

/// Where the next request goes. The pool has `workers` workers, each with a
/// queue of `capacity` places; `next` is the worker whose turn it is.
#[derive(Clone, Copy, Debug, PartialEq, Eq, Structural)]
pub struct TickerBalancer {
    pub workers: usize,
    pub capacity: usize,
    pub next: usize,
}

impl TickerBalancer {
    /// There is at least one worker, and the turn is with one of them.
    pub open spec fn wf(self) -> bool {
        self.workers >= 1 && self.next < self.workers
    }

    /// Whether worker `i` has no free place, given the queue lengths.
    pub open spec fn full(self, queued: Seq<usize>, i: int) -> bool {
        queued[i] >= self.capacity
    }

    /// Whether every worker from `from` up to, not including, `to` is full.
    pub open spec fn all_full(self, queued: Seq<usize>, from: int, to: int) -> bool {
        forall|j: int| from <= j < to ==> self.full(queued, j)
    }

    /// Whether `i` is the first worker with a free place, counting from the
    /// worker whose turn it is and wrapping round at the end of the pool.
    pub open spec fn first_free(self, queued: Seq<usize>, i: int) -> bool {
        &&& 0 <= i < self.workers
        &&& !self.full(queued, i)
        &&& if i >= self.next {
            self.all_full(queued, self.next as int, i)
        } else {
            self.all_full(queued, self.next as int, self.workers as int) && self.all_full(
                queued,
                0,
                i,
            )
        }
    }

    /// The turn after worker `i` was given a request.
    pub open spec fn turn_after(self, i: int) -> int {
        if i + 1 == self.workers {
            0
        } else {
            i + 1
        }
    }

    /// A balancer for a pool of the given size, with the first turn at the
    /// first worker.
    pub fn new(number_of_workers: usize, capacity: usize) -> (balancer: TickerBalancer)
        requires
            number_of_workers >= 1,
        ensures
            balancer.wf(),
            balancer.workers == number_of_workers,
            balancer.capacity == capacity,
            balancer.next == 0,
    {
        TickerBalancer { workers: number_of_workers, capacity, next: 0 }
    }

    /// Picks the worker for the next request: the first one with a free place,
    /// starting at the worker whose turn it is. The turn then passes to the
    /// worker after the chosen one. With every queue full nobody is chosen and
    /// the turn stays: the request waits.
    pub fn choose_worker(&mut self, queued: &Vec<usize>) -> (chosen: Option<usize>)
        requires
            old(self).wf(),
            queued.len() == old(self).workers,
        ensures
            final(self).wf(),
            final(self).workers == old(self).workers,
            final(self).capacity == old(self).capacity,
            match chosen {
                Some(i) => {
                    &&& old(self).first_free(queued@, i as int)
                    &&& final(self).next == old(self).turn_after(i as int)
                },
                None => {
                    &&& old(self).all_full(queued@, 0, old(self).workers as int)
                    &&& final(self).next == old(self).next
                },
            },
    {
        let start: usize = self.next;
        let mut i: usize = start;
        while i < self.workers
            invariant
                *self == *old(self),
                start == self.next,
                start <= i <= self.workers,
                queued.len() == self.workers,
                self.all_full(queued@, start as int, i as int),
            decreases self.workers - i,
        {
            if queued[i] < self.capacity {
                self.next = if i + 1 == self.workers {
                    0
                } else {
                    i + 1
                };
                return Some(i);
            }
            i += 1;
        }
        let mut k: usize = 0;
        while k < start
            invariant
                *self == *old(self),
                start == self.next,
                k <= start < self.workers,
                queued.len() == self.workers,
                self.all_full(queued@, start as int, self.workers as int),
                self.all_full(queued@, 0, k as int),
            decreases start - k,
        {
            if queued[k] < self.capacity {
                self.next = k + 1;
                return Some(k);
            }
            k += 1;
        }
        None
    }
}

/// Whoever is chosen is a worker of the pool with a free place, so a request
/// goes to exactly one queue and never to a full one.
pub proof fn lemma_chosen_worker_has_room(balancer: TickerBalancer, queued: Seq<usize>, i: int)
    requires
        balancer.wf(),
        queued.len() == balancer.workers,
        balancer.first_free(queued, i),
    ensures
        0 <= i < queued.len(),
        queued[i] < balancer.capacity,
{
}

/// While the worker whose turn it is has a free place, the request goes to
/// it: with room everywhere the workers are served in turn.
pub proof fn lemma_turn_is_kept(balancer: TickerBalancer, queued: Seq<usize>, i: int)
    requires
        balancer.wf(),
        queued.len() == balancer.workers,
        !balancer.full(queued, balancer.next as int),
        balancer.first_free(queued, i),
    ensures
        i == balancer.next,
{
}

/// While any worker has a free place, the rule finds one: a full queue never
/// holds a request back while another queue has room.
pub proof fn lemma_free_worker_is_found(balancer: TickerBalancer, queued: Seq<usize>, free: int)
    requires
        balancer.wf(),
        queued.len() == balancer.workers,
        0 <= free < balancer.workers,
        !balancer.full(queued, free),
    ensures
        !balancer.all_full(queued, 0, balancer.workers as int),
{
}

} // verus!
