//! Async I/O Batcher bookkeeping: batches are submitted without blocking
//! the caller and their completions are observed by polling. The batcher
//! tracks which submissions are still in flight, bounded by the in-flight
//! limit (one for strictly sequential checkpoints). Partial-batch failure
//! reporting lives with the executor, which retries only what failed.

use vstd::prelude::*;

verus! {

/// Tracks the handles of submitted, not yet completed, I/O batches.
pub struct IoBatcher {
    max_in_flight: usize,
    in_flight: Vec<u64>,
    next_handle: u64,
}

impl IoBatcher {
    /// The bound on concurrently in-flight batches.
    pub closed spec fn max_in_flight(self) -> usize {
        self.max_in_flight
    }

    /// Handles of the batches currently in flight, in submission order.
    pub closed spec fn in_flight(self) -> Seq<u64> {
        self.in_flight@
    }

    /// The handle the next submission will get.
    pub closed spec fn next_handle(self) -> u64 {
        self.next_handle
    }

    /// Handles are unique and below the next one to be issued.
    pub closed spec fn wf(self) -> bool {
        &&& self.max_in_flight > 0
        &&& forall|i: int, j: int|
            0 <= i < j < self.in_flight@.len() ==> self.in_flight@[i] != self.in_flight@[j]
        &&& forall|i: int|
            0 <= i < self.in_flight@.len() ==> #[trigger] self.in_flight@[i] < self.next_handle
    }

    /// A batcher that allows `max_in_flight` concurrent submissions; pass
    /// one for strictly sequential batch I/O.
    pub fn new(max_in_flight: usize) -> (b: Self)
        requires
            max_in_flight > 0,
        ensures
            b.wf(),
            b.max_in_flight() == max_in_flight,
            b.in_flight() == Seq::<u64>::empty(),
            b.next_handle() == 0,
    {
        IoBatcher { max_in_flight, in_flight: Vec::new(), next_handle: 0 }
    }

    /// How many batches are in flight.
    pub fn in_flight_count(&self) -> (n: usize)
        ensures
            n == self.in_flight().len(),
    {
        self.in_flight.len()
    }

    /// Whether a new batch may be submitted without exceeding the
    /// in-flight bound.
    pub fn can_submit(&self) -> (b: bool)
        ensures
            b == (self.in_flight().len() < self.max_in_flight()),
    {
        self.in_flight.len() < self.max_in_flight
    }

    /// Enqueues one batch, never blocking the caller: returns a fresh
    /// handle under which its completion will be reported.
    pub fn submit(&mut self) -> (handle: u64)
        requires
            old(self).wf(),
            old(self).in_flight().len() < old(self).max_in_flight(),
            old(self).next_handle() < u64::MAX,
        ensures
            final(self).wf(),
            handle == old(self).next_handle(),
            !old(self).in_flight().contains(handle),
            final(self).in_flight() == old(self).in_flight().push(handle),
            final(self).next_handle() == old(self).next_handle() + 1,
            final(self).max_in_flight() == old(self).max_in_flight(),
    {
        let handle = self.next_handle;
        proof {
            if self.in_flight@.contains(handle) {
                let i = choose|i: int|
                    0 <= i < self.in_flight@.len() && self.in_flight@[i] == handle;
                assert(self.in_flight@[i] < self.next_handle);
            }
        }
        self.in_flight.push(handle);
        self.next_handle = handle + 1;
        handle
    }

    /// Records the completion of the batch submitted under `handle`.
    /// Returns whether the handle was in flight; afterwards it is not.
    pub fn complete(&mut self, handle: u64) -> (found: bool)
        requires
            old(self).wf(),
        ensures
            final(self).wf(),
            found == old(self).in_flight().contains(handle),
            !final(self).in_flight().contains(handle),
            forall|h: u64|
                h != handle ==> final(self).in_flight().contains(h) == old(
                    self,
                ).in_flight().contains(h),
            found ==> final(self).in_flight().len() == old(self).in_flight().len() - 1,
            !found ==> final(self).in_flight() == old(self).in_flight(),
            final(self).next_handle() == old(self).next_handle(),
            final(self).max_in_flight() == old(self).max_in_flight(),
    {
        let n = self.in_flight.len();
        let mut i: usize = 0;
        while i < n
            invariant
                0 <= i <= n,
                n == self.in_flight@.len(),
                *self == *old(self),
                old(self).wf(),
                forall|k: int| 0 <= k < i ==> self.in_flight@[k] != handle,
            decreases n - i,
        {
            if self.in_flight[i] == handle {
                proof {
                    assert(0 <= i < self.in_flight@.len());
                }
                self.in_flight.remove(i);
                proof {
                    let olds = old(self).in_flight();
                    let news = self.in_flight@;
                    olds.remove_ensures(i as int);
                    assert(news == olds.remove(i as int));
                    assert forall|h: u64| h != handle implies news.contains(h) == olds.contains(
                        h,
                    ) by {
                        if olds.contains(h) {
                            let k = choose|k: int| 0 <= k < olds.len() && olds[k] == h;
                            if k < i {
                                assert(news[k] == h);
                            } else {
                                assert(k > i);
                                assert(news[k - 1] == h);
                            }
                        }
                        if news.contains(h) {
                            let k = choose|k: int| 0 <= k < news.len() && news[k] == h;
                            if k < i {
                                assert(olds[k] == h);
                            } else {
                                assert(olds[k + 1] == h);
                            }
                        }
                    }
                    assert(!news.contains(handle)) by {
                        if news.contains(handle) {
                            let k = choose|k: int| 0 <= k < news.len() && news[k] == handle;
                            if k < i {
                                assert(olds[k] == handle);
                            } else {
                                assert(olds[k + 1] == handle);
                            }
                        }
                    }
                    assert(olds.contains(handle)) by {
                        assert(olds[i as int] == handle);
                    }
                }
                return true;
            }
            i += 1;
        }
        proof {
            if self.in_flight@.contains(handle) {
                let k = choose|k: int|
                    0 <= k < self.in_flight@.len() && self.in_flight@[k] == handle;
            }
        }
        false
    }

    /// Whether every submitted batch has completed: what `flush_and_wait`
    /// waits for at controlled shutdown.
    pub fn is_drained(&self) -> (b: bool)
        ensures
            b == (self.in_flight().len() == 0),
    {
        self.in_flight.len() == 0
    }
}

} // verus!
