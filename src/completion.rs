use vstd::prelude::*;

verus! {

/// The completion flag between a device submission and the update loop.
///
/// The device's completion callback only sets it; the loop polls it with a
/// test-and-clear, so each completed round trip is observed exactly once.
#[derive(Clone, Copy, Debug, PartialEq, Eq, Structural)]
pub struct Completion {
    pub signaled: bool,
}

impl Completion {
    /// The flag after a poll, and what the poll returned.
    pub open spec fn polled(self) -> (Completion, bool) {
        (Completion { signaled: false }, self.signaled)
    }

    /// A flag that starts set: the readback buffer is created mapped, so the
    /// first poll releases it.
    pub fn new() -> (r: Completion)
        ensures
            r.signaled,
    {
        Completion { signaled: true }
    }

    /// What the completion callback does: mark the round trip finished.
    pub fn signal(&mut self)
        ensures
            final(self).signaled,
    {
        self.signaled = true;
    }

    /// Test and clear: whether a round trip finished since the last poll.
    pub fn ready(&mut self) -> (r: bool)
        ensures
            (*final(self), r) == old(self).polled(),
    {
        let r = self.signaled;
        self.signaled = false;
        r
    }
}

/// What `n` polls in a row return, starting from `c`.
pub open spec fn poll_results(c: Completion, n: nat) -> Seq<bool>
    decreases n,
{
    if n == 0 {
        Seq::empty()
    } else {
        seq![c.polled().1] + poll_results(c.polled().0, (n - 1) as nat)
    }
}

/// Polls before the callback fires all return false; after it fires, the first
/// poll returns true and every later one false, until the next signal.
pub proof fn lemma_ready_once(c: Completion, n: nat)
    ensures
        poll_results(c, n).len() == n,
        forall|i: int| 0 <= i < n ==> #[trigger] poll_results(c, n)[i] == (i == 0 && c.signaled),
    decreases n,
{
    if n > 0 {
        lemma_ready_once(c.polled().0, (n - 1) as nat);
        let rest = poll_results(c.polled().0, (n - 1) as nat);
        assert forall|i: int| 0 <= i < n implies #[trigger] poll_results(c, n)[i] == (i == 0
            && c.signaled) by {
            if i > 0 {
                assert(poll_results(c, n)[i] == rest[i - 1]);
            }
        }
    }
}

/// Latencies observed by the benchmarking scheduler, in timestamp ticks.
///
/// The loop only appends to it.
pub struct Latencies {
    pub ticks: Vec<u64>,
}

impl Latencies {
    pub fn new() -> (r: Latencies)
        ensures
            r.ticks@ == Seq::<u64>::empty(),
    {
        Latencies { ticks: Vec::new() }
    }

    /// Records the pass between two timestamps. A pair that is out of order
    /// cannot be read as a latency and is dropped; the result is the latency
    /// recorded, if any.
    pub fn record(&mut self, start: u64, end: u64) -> (r: Option<u64>)
        ensures
            r == (if end >= start { Some((end - start) as u64) } else { None::<u64> }),
            final(self).ticks@ == (match r {
                Some(t) => old(self).ticks@.push(t),
                None => old(self).ticks@,
            }),
    {
        if end >= start {
            let t = end - start;
            self.ticks.push(t);
            Some(t)
        } else {
            None
        }
    }
}

} // verus!
