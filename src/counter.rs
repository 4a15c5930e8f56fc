use vstd::prelude::*;

verus! {

/// Number of tasks that reached a terminal state since start-up.
pub struct CompletionCounter {
    count: u64,
}

impl CompletionCounter {
    pub closed spec fn value(&self) -> nat {
        self.count as nat
    }

    pub fn new() -> (r: CompletionCounter)
        ensures
            r.value() == 0,
    {
        CompletionCounter { count: 0 }
    }

    pub fn get(&self) -> (r: u64)
        ensures
            r as nat == self.value(),
    {
        self.count
    }

    /// Counts one more finished task.
    pub fn record_completion(&mut self)
        requires
            old(self).value() < u64::MAX,
        ensures
            final(self).value() == old(self).value() + 1,
    {
        self.count = self.count + 1;
    }

    /// Whether one more completion can still be counted.
    pub fn has_room(&self) -> (r: bool)
        ensures
            r == (self.value() < u64::MAX),
    {
        self.count < u64::MAX
    }
}

} // verus!
