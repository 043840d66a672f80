//! The activity gate.
//!
//! The operating system reports when the user last touched keyboard or mouse
//! as a number that never goes down. An activity gate remembers the number
//! that was current at the last picture, and lets a new picture through only
//! when the number has grown since.

use vstd::prelude::*;

verus! {

/// The time of the last input for which a picture was saved.
#[derive(Clone, Copy, Debug, PartialEq, Eq, Structural)]
pub struct ActivityGate {
    last_recorded: u32,
}

impl ActivityGate {
    /// The recorded time.
    pub closed spec fn recorded(self) -> u32 {
        self.last_recorded
    }

    /// Whether a cycle is let through on the answer `current` to the
    /// query for the time of the last input, where `None` stands for a query
    /// that failed.
    pub open spec fn accepts(self, current: Option<u32>) -> bool {
        current matches Some(t) && t > self.recorded()
    }

    /// A gate that has recorded nothing yet.
    pub fn new() -> (r: ActivityGate)
        ensures
            r.recorded() == 0,
    {
        ActivityGate { last_recorded: 0 }
    }

    /// The recorded time.
    pub fn last_recorded(&self) -> (r: u32)
        ensures
            r == self.recorded(),
    {
        self.last_recorded
    }

    /// Decides whether to take a picture in this cycle. A failed query counts
    /// as no new input. The recorded time is left as it is: the caller commits
    /// once the picture has been saved.
    pub fn should_capture(&self, current: Option<u32>) -> (r: bool)
        ensures
            r == self.accepts(current),
    {
        match current {
            Some(t) => t > self.last_recorded,
            None => false,
        }
    }

    /// Records `current` as the time of the last input with a saved picture.
    pub fn commit(&mut self, current: u32)
        ensures
            final(self).recorded() == current,
    {
        self.last_recorded = current;
    }
}

/// After a commit of `t`, the same time is rejected, and so is every earlier one.
pub proof fn lemma_committed_time_rejected(gate: ActivityGate, t: u32, again: u32)
    requires
        gate.recorded() == t,
        again <= t,
    ensures
        !gate.accepts(Some(again)),
{
}

/// A failed query is rejected whatever has been recorded.
pub proof fn lemma_failed_query_rejected(gate: ActivityGate)
    ensures
        !gate.accepts(None),
{
}

} // verus!
