use vstd::prelude::*;

verus! {

/// Interval of a periodic task, in seconds.
#[derive(Debug, Clone, Copy)]
pub struct TaskInterval(pub u64);

impl TaskInterval {
    pub fn from(s: u64) -> (res: Self)
        ensures
            res.0 == s,
    {
        TaskInterval(s)
    }

    pub fn seconds(&self) -> (res: u64)
        ensures
            res == self.0,
    {
        self.0
    }
}

} // verus!
