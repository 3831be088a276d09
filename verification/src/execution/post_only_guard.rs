use vstd::prelude::*;

use crate::metrics::{bump_count, bumped};

verus! {

#[derive(Debug, Clone, Copy, PartialEq, Eq, Structural)]
pub enum PostOnlyRejectReason {
    PostOnlyWouldCross,
}

#[derive(Debug, Clone, Copy, PartialEq, Eq, Structural)]
pub struct PostOnlyReject {
    pub reason: PostOnlyRejectReason,
}

/// Count of post-only orders refused because they would cross.
pub struct PostOnlyMetrics {
    cross_reject_total: u64,
}

impl PostOnlyMetrics {
    pub closed spec fn rejects(&self) -> u64 {
        self.cross_reject_total
    }

    pub fn new() -> (m: Self)
        ensures
            m.rejects() == 0,
    {
        Self { cross_reject_total: 0 }
    }

    pub fn cross_reject_total(&self) -> (r: u64)
        ensures
            r == self.rejects(),
    {
        self.cross_reject_total
    }

    /// Counts one would-cross rejection and returns it.
    pub fn reject_would_cross(&mut self) -> (r: PostOnlyReject)
        ensures
            r.reason == PostOnlyRejectReason::PostOnlyWouldCross,
            final(self).rejects() == bumped(old(self).rejects()),
    {
        self.cross_reject_total = bump_count(self.cross_reject_total);
        PostOnlyReject { reason: PostOnlyRejectReason::PostOnlyWouldCross }
    }
}

impl Default for PostOnlyMetrics {
    fn default() -> (m: Self)
        ensures
            m.rejects() == 0,
    {
        Self::new()
    }
}

} // verus!
