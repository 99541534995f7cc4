//! Moments on a monotonic clock.
use vstd::prelude::*;

verus! {

/// A moment, in nanoseconds since an arbitrary start.
#[derive(Clone, Copy, Debug, PartialEq, Eq, Structural)]
pub struct Instant {
    pub nanos: u64,
}

/// The interval between two frames of an animation, in nanoseconds.
pub const FRAME_NANOS: u64 = 16_000_000;

impl Instant {
    /// The nanoseconds from an earlier moment to this one; none if it is not earlier.
    pub open spec fn span_since(self, earlier: Instant) -> int {
        if self.nanos >= earlier.nanos {
            self.nanos - earlier.nanos
        } else {
            0
        }
    }

    /// The moment one animation frame later.
    pub open spec fn next_frame(self) -> Instant {
        Instant { nanos: (self.nanos + FRAME_NANOS) as u64 }
    }

    /// Whether one animation frame later is still a moment of the clock.
    pub open spec fn has_next_frame(self) -> bool {
        self.nanos + FRAME_NANOS <= u64::MAX
    }

    /// Gives the nanoseconds from an earlier moment to this one.
    pub fn since(&self, earlier: Instant) -> (r: u64)
        ensures
            r == self.span_since(earlier),
    {
        self.nanos.saturating_sub(earlier.nanos)
    }

    /// Gives the moment one animation frame later.
    pub fn after_frame(&self) -> (r: Instant)
        requires
            self.has_next_frame(),
        ensures
            r == self.next_frame(),
    {
        Instant { nanos: self.nanos + FRAME_NANOS }
    }
}

/// The time from an earlier moment to a later one leads from the one to the other. No time lies
/// between a moment and a later one when looked at from the earlier one.
pub proof fn law_time_leads_on(earlier: Instant, later: Instant)
    requires
        earlier.nanos <= later.nanos,
    ensures
        earlier.nanos + later.span_since(earlier) == later.nanos,
        earlier.span_since(later) == 0,
        later.has_next_frame() ==> later.next_frame().span_since(later) == 16 * 1_000_000,
{
}

} // verus!
