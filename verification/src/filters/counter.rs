//! The counter filter: a decrementing threshold that passes one message in
//! every `count + 1`.

use vstd::prelude::*;

use crate::data::DataHub;
use crate::filter::FilterResult;

verus! {

/// A decrementing counter. `counter` holds how many invocations are
/// still to be rejected before one passes; `count` is the value the
/// counter resets to when it passes.
#[derive(Clone, Copy)]
pub struct Counter {
    pub counter: u8,
    pub count: u8,
}

/// The filter passes exactly when the counter sits at the floor.
pub open spec fn counter_passes(c: Counter) -> bool {
    c.counter == 0
}

/// The counter after one invocation: reset when it passed, decremented
/// when it rejected.
pub open spec fn counter_stepped(c: Counter) -> Counter {
    if c.counter == 0 {
        Counter { counter: c.count, count: c.count }
    } else {
        Counter { counter: (c.counter - 1) as u8, count: c.count }
    }
}

/// The counter after `k` invocations.
pub open spec fn counter_after(c: Counter, k: nat) -> Counter
    decreases k,
{
    if k == 0 {
        c
    } else {
        counter_stepped(counter_after(c, (k - 1) as nat))
    }
}

proof fn lemma_counter_countdown(c: Counter, k: nat)
    requires
        c.counter == c.count,
        k <= c.count,
    ensures
        counter_after(c, k).count == c.count,
        counter_after(c, k).counter == c.count - k,
    decreases k,
{
    if k > 0 {
        lemma_counter_countdown(c, (k - 1) as nat);
    }
}

/// A freshly built counter filter with `count == N` rejects its first
/// `N` invocations, passes the `(N + 1)`-th, and is then back at its
/// starting state — so the pattern repeats cyclically.
pub proof fn lemma_counter_cycle(c: Counter, k: nat)
    requires
        c.counter == c.count,
        k <= c.count,
    ensures
        k < c.count ==> !counter_passes(counter_after(c, k)),
        k == c.count ==> counter_passes(counter_after(c, k)),
        counter_after(c, (c.count + 1) as nat) == c,
{
    lemma_counter_countdown(c, k);
    lemma_counter_countdown(c, c.count as nat);
}

impl Counter {
    pub fn builder() -> (r: CounterBuilder)
        ensures
            r.inner.counter == 0,
            r.inner.count == 0,
    {
        CounterBuilder { inner: Counter { counter: 0, count: 0 } }
    }

    /// One invocation: passes and resets exactly when the counter sits
    /// at the floor, else decrements and rejects.
    pub fn filter(&mut self, _data: &DataHub) -> (r: FilterResult)
        ensures
            r is Ok <==> counter_passes(*old(self)),
            *final(self) == counter_stepped(*old(self)),
    {
        if self.counter == 0 {
            self.counter = self.count;
            Ok(())
        } else {
            self.counter = self.counter - 1;
            Err(())
        }
    }
}

pub struct CounterBuilder {
    pub inner: Counter,
}

impl CounterBuilder {
    pub fn count(self, count: u8) -> (r: CounterBuilder)
        ensures
            r.inner.count == count,
            r.inner.counter == count,
    {
        CounterBuilder { inner: Counter { counter: count, count } }
    }

    pub fn build(self) -> (r: Counter)
        ensures
            r == self.inner,
    {
        self.inner
    }
}

} // verus!
