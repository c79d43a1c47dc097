use vstd::prelude::*;

verus! {

/// A native-owned mutable integer that the host reaches through a handle.
pub struct Counter {
    value: i32,
}

impl View for Counter {
    type V = int;

    closed spec fn view(&self) -> int {
        self.value as int
    }
}

/// One call that the host can make on a counter handle.
#[derive(PartialEq, Eq, Structural, Clone, Copy, Debug)]
pub enum CounterCall {
    Increment,
    Decrement,
    Read,
}

/// The counter's value after `calls` are made, in order, on a counter that
/// holds `v`; each step is what the method of that name ensures.
pub open spec fn after_calls(v: int, calls: Seq<CounterCall>) -> int
    decreases calls.len(),
{
    if calls.len() == 0 {
        v
    } else {
        let before = after_calls(v, calls.drop_last());
        match calls.last() {
            CounterCall::Increment => before + 1,
            CounterCall::Decrement => before - 1,
            CounterCall::Read => before,
        }
    }
}

/// How many of `calls` are `c`.
pub open spec fn count_of(calls: Seq<CounterCall>, c: CounterCall) -> nat
    decreases calls.len(),
{
    if calls.len() == 0 {
        0
    } else {
        count_of(calls.drop_last(), c) + if calls.last() == c { 1nat } else { 0nat }
    }
}

impl Counter {
    /// A counter that starts at `initial`, or at zero when none is given.
    pub fn new(initial: Option<i32>) -> (r: Counter)
        ensures
            r@ == initial.unwrap_or(0) as int,
    {
        Counter { value: initial.unwrap_or(0) }
    }

    /// Adds one.
    pub fn increment(&mut self)
        requires
            old(self)@ < i32::MAX,
        ensures
            final(self)@ == old(self)@ + 1,
    {
        self.value = self.value + 1;
    }

    /// Takes one away.
    pub fn decrement(&mut self)
        requires
            old(self)@ > i32::MIN,
        ensures
            final(self)@ == old(self)@ - 1,
    {
        self.value = self.value - 1;
    }

    /// Adds `n`.
    pub fn add(&mut self, n: i32)
        requires
            i32::MIN <= old(self)@ + n <= i32::MAX,
        ensures
            final(self)@ == old(self)@ + n,
    {
        self.value = self.value + n;
    }

    /// The current value.
    pub fn value(&self) -> (r: i32)
        ensures
            r == self@,
    {
        self.value
    }

    /// Replaces the value.
    pub fn set_value(&mut self, value: i32)
        ensures
            final(self)@ == value,
    {
        self.value = value;
    }

    /// Sets the value back to zero.
    pub fn reset(&mut self)
        ensures
            final(self)@ == 0,
    {
        self.value = 0;
    }
}

/// A counter made with `v` reads `v + k - m` after `k` increments and `m`
/// decrements, whatever the order of the calls and however many reads fall
/// between them.
pub proof fn law_counter_reads_net_count(v: int, calls: Seq<CounterCall>)
    ensures
        after_calls(v, calls) == v + count_of(calls, CounterCall::Increment) - count_of(
            calls,
            CounterCall::Decrement,
        ),
    decreases calls.len(),
{
    if calls.len() > 0 {
        let init = calls.drop_last();
        law_counter_reads_net_count(v, init);
    }
}

} // verus!
