//! Deterministic crash boundaries used by workflow failure tests.
use vstd::prelude::*;

verus! {

/// Named boundary at which a failure can be injected.
#[derive(Clone, Copy, Debug, PartialEq, Eq, PartialOrd, Ord, Hash, Structural)]
pub enum FailurePoint {
    BeforeDbWrite,
    AfterDbWrite,
    BeforeThreadCreate,
    AfterThreadCreate,
    BeforeTurnQueue,
    AfterTurnQueue,
    AfterUserBoundaryAppend,
    AfterTerminalDelivery,
    AfterTerminalFlush,
    BeforeExternalDispatch,
    AfterExternalDispatch,
    BeforeReplyCommit,
    AfterReplyCommit,
}

/// Position of a point in declaration order.
pub open spec fn spec_point_index(p: FailurePoint) -> int {
    match p {
        FailurePoint::BeforeDbWrite => 0,
        FailurePoint::AfterDbWrite => 1,
        FailurePoint::BeforeThreadCreate => 2,
        FailurePoint::AfterThreadCreate => 3,
        FailurePoint::BeforeTurnQueue => 4,
        FailurePoint::AfterTurnQueue => 5,
        FailurePoint::AfterUserBoundaryAppend => 6,
        FailurePoint::AfterTerminalDelivery => 7,
        FailurePoint::AfterTerminalFlush => 8,
        FailurePoint::BeforeExternalDispatch => 9,
        FailurePoint::AfterExternalDispatch => 10,
        FailurePoint::BeforeReplyCommit => 11,
        FailurePoint::AfterReplyCommit => 12,
    }
}

fn point_index(p: FailurePoint) -> (i: usize)
    ensures
        i == spec_point_index(p),
        i < 13,
{
    match p {
        FailurePoint::BeforeDbWrite => 0,
        FailurePoint::AfterDbWrite => 1,
        FailurePoint::BeforeThreadCreate => 2,
        FailurePoint::AfterThreadCreate => 3,
        FailurePoint::BeforeTurnQueue => 4,
        FailurePoint::AfterTurnQueue => 5,
        FailurePoint::AfterUserBoundaryAppend => 6,
        FailurePoint::AfterTerminalDelivery => 7,
        FailurePoint::AfterTerminalFlush => 8,
        FailurePoint::BeforeExternalDispatch => 9,
        FailurePoint::AfterExternalDispatch => 10,
        FailurePoint::BeforeReplyCommit => 11,
        FailurePoint::AfterReplyCommit => 12,
    }
}

/// The injected failure reported at its boundary.
#[derive(Clone, Copy, Debug, PartialEq, Eq, Structural)]
pub struct InjectedFailure {
    pub point: FailurePoint,
}

/// The visit count after one more arrival; it saturates at `u32::MAX`.
pub open spec fn spec_next_visit(count: u32) -> u32 {
    if count == u32::MAX {
        u32::MAX
    } else {
        (count + 1) as u32
    }
}

/// An arrival at `point`, with `count` visits recorded before it, fails.
pub open spec fn spec_fails_at(target: Option<(FailurePoint, u32)>, point: FailurePoint, count: u32) -> bool {
    target == Some((point, spec_next_visit(count)))
}

/// A configured failure is injected once: once the arrival that failed has
/// been counted, no later arrival at that point fails, as long as the count
/// has not reached its saturation value.
pub proof fn law_fails_once(target: Option<(FailurePoint, u32)>, point: FailurePoint, failed: u32, later: u32)
    requires
        spec_fails_at(target, point, failed),
        spec_next_visit(failed) < u32::MAX,
        later >= spec_next_visit(failed),
    ensures
        !spec_fails_at(target, point, later),
{
}

/// A disabled injector never fails.
pub proof fn law_disabled_never_fails(point: FailurePoint, count: u32)
    ensures
        !spec_fails_at(None, point, count),
{
}

/// Counts boundary visits and fails once at a configured visit of one point.
/// It has no copies: every component that checkpoints uses this one value,
/// borrowed mutably, so all of them count the same visits.
#[derive(Debug)]
pub struct FailureInjector {
    target: Option<(FailurePoint, u32)>,
    counts: [u32; 13],
}

impl FailureInjector {
    /// The configured failure: a point and a one-based visit number.
    pub closed spec fn target(&self) -> Option<(FailurePoint, u32)> {
        self.target
    }

    /// Visits recorded so far at `p`.
    pub closed spec fn visit_count(&self, p: FailurePoint) -> u32 {
        self.counts@[spec_point_index(p)]
    }

    fn zeroed(target: Option<(FailurePoint, u32)>) -> (r: Self)
        ensures
            r.target() == target,
            forall|p: FailurePoint| r.visit_count(p) == 0,
    {
        let counts: [u32; 13] = [0u32; 13];
        FailureInjector { target, counts }
    }

    /// An injector that never fails.
    pub fn disabled() -> (r: Self)
        ensures
            r.target() is None,
            forall|p: FailurePoint| r.visit_count(p) == 0,
    {
        Self::zeroed(None)
    }

    /// Fails on the `visit`-th arrival at `point`; a zero visit means the first.
    pub fn fail_on(point: FailurePoint, visit: u32) -> (r: Self)
        ensures
            r.target() == Some((point, if visit >= 1 { visit } else { 1u32 })),
            forall|p: FailurePoint| r.visit_count(p) == 0,
    {
        let v = if visit >= 1 {
            visit
        } else {
            1
        };
        Self::zeroed(Some((point, v)))
    }

    /// Records one arrival at `point` and fails if it is the configured visit.
    pub fn checkpoint(&mut self, point: FailurePoint) -> (r: Result<(), InjectedFailure>)
        ensures
            final(self).target() == old(self).target(),
            final(self).visit_count(point) == spec_next_visit(old(self).visit_count(point)),
            forall|p: FailurePoint| p != point ==> final(self).visit_count(p) == old(self).visit_count(p),
            r is Err <==> spec_fails_at(old(self).target(), point, old(self).visit_count(point)),
            r matches Err(e) ==> e.point == point,
    {
        let i = point_index(point);
        let current = self.counts[i];
        let next = if current == u32::MAX {
            u32::MAX
        } else {
            current + 1
        };
        self.counts.set(i, next);
        proof {
            assert forall|p: FailurePoint| p != point implies self.visit_count(p) == old(self).visit_count(p) by {
                assert(spec_point_index(p) != spec_point_index(point));
            }
        }
        match self.target {
            Some((p, v)) => {
                if p == point && v == next {
                    return Err(InjectedFailure { point });
                }
            },
            None => {},
        }
        Ok(())
    }

    /// Visits recorded so far at `point`.
    pub fn visits(&self, point: FailurePoint) -> (n: u32)
        ensures
            n == self.visit_count(point),
    {
        self.counts[point_index(point)]
    }
}

} // verus!
