//! The watermarks of a project: when it was last pulled and last pushed.

use vstd::prelude::*;
use crate::time::Timestamp;

verus! {

/// The instants of a project's last successful pull and push; `None` while
/// there has been none.
#[derive(Debug, Clone, Copy, PartialEq, Eq, Structural)]
pub struct Tracker {
    pub last_pull: Option<Timestamp>,
    pub last_push: Option<Timestamp>,
}

/// The watermark after an operation that started at `at`: `at` itself,
/// unless the watermark already stood later.
pub open spec fn advanced(watermark: Option<Timestamp>, at: Timestamp) -> Timestamp {
    match watermark {
        Some(previous) => if previous.after(at) {
            previous
        } else {
            at
        },
        None => at,
    }
}

/// A watermark never moves backward: once advanced it stands at the
/// operation's start or later, and no earlier than it stood before.
pub proof fn lemma_watermark_never_regresses(watermark: Option<Timestamp>, at: Timestamp)
    ensures
        !at.after(advanced(watermark, at)),
        watermark matches Some(previous) ==> !previous.after(advanced(watermark, at)),
        advanced(watermark, at) == at || watermark == Some(advanced(watermark, at)),
{
}

fn advance(watermark: Option<Timestamp>, at: Timestamp) -> (next: Timestamp)
    ensures
        next == advanced(watermark, at),
{
    match watermark {
        Some(previous) => at.latest(previous),
        None => at,
    }
}

impl Tracker {
    /// The watermarks of a project that was never pulled nor pushed.
    pub fn new() -> (tracker: Tracker)
        ensures
            tracker.last_pull is None,
            tracker.last_push is None,
    {
        Tracker { last_pull: None, last_push: None }
    }

    /// Records a successful pull that started at `at`.
    pub fn record_pull(&mut self, at: Timestamp)
        ensures
            final(self).last_pull == Some(advanced(old(self).last_pull, at)),
            final(self).last_push == old(self).last_push,
    {
        self.last_pull = Some(advance(self.last_pull, at));
    }

    /// Records a successful push that started at `at`.
    pub fn record_push(&mut self, at: Timestamp)
        ensures
            final(self).last_push == Some(advanced(old(self).last_push, at)),
            final(self).last_pull == old(self).last_pull,
    {
        self.last_push = Some(advance(self.last_push, at));
    }

    /// Records a successful pull at the current instant. Whatever the
    /// clock says, the pull watermark is set and does not move backward.
    pub fn update_pull(&mut self)
        ensures
            final(self).last_pull is Some,
            old(self).last_pull matches Some(previous) ==> !previous.after(
                final(self).last_pull->0,
            ),
            final(self).last_push == old(self).last_push,
    {
        self.record_pull(Timestamp::now());
    }

    /// Records a successful push at the current instant. Whatever the
    /// clock says, the push watermark is set and does not move backward.
    pub fn update_push(&mut self)
        ensures
            final(self).last_push is Some,
            old(self).last_push matches Some(previous) ==> !previous.after(
                final(self).last_push->0,
            ),
            final(self).last_pull == old(self).last_pull,
    {
        self.record_push(Timestamp::now());
    }
}

} // verus!
