//! What the system's clock reported.

use vstd::prelude::*;

verus! {

/// What the system's monotonic clock reported so far, in order: since which
/// moment, and how many nanoseconds had passed since then.
///
/// Only a report of the system makes the history longer.
pub struct History {
    reports: Ghost<Seq<(std::time::Instant, u128)>>,
}

impl View for History {
    type V = Seq<(std::time::Instant, u128)>;

    closed spec fn view(&self) -> Seq<(std::time::Instant, u128)> {
        self.reports@
    }
}

impl History {
    /// A history without reports.
    pub fn new() -> (history: History)
        ensures
            history@ == Seq::<(std::time::Instant, u128)>::empty(),
    {
        History { reports: Ghost(Seq::empty()) }
    }
}

} // verus!
