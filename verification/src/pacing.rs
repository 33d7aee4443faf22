//! How fast the frame loop is allowed to go, in nanoseconds on the app's own
//! monotonic clock.
//!
//! A deadline rather than a fixed sleep, so the cap does not drift: each frame
//! waits until its own slot has come round. When a frame has already overrun
//! its budget the deadline is resynced to now rather than chased, because
//! catching up on a frame that took too long means running the next few flat
//! out, which is the thing this exists to prevent.

use vstd::prelude::*;

verus! {

/// Nanoseconds in a second.
pub const NANOS: u64 = 1_000_000_000;

/// The rates at which a second is exactly half a nanosecond off a whole
/// number of nanoseconds a frame and the budget is taken below the half.
///
/// The budget is the frame time as a double, rounded to the nearest
/// nanosecond. A second over `fps` falls exactly on a half only where `fps`
/// is 1024 times a power of five; at 1024 the double is the half itself and
/// the tie goes to the even nanosecond, below; at 16 000 000 and 80 000 000
/// the nearest double lies just below the half, and at the seven others just
/// above it.
pub open spec fn tie_below(fps: nat) -> bool {
    fps == 1024 || fps == 16_000_000 || fps == 80_000_000
}

/// A second shared out over `fps` frames, to the nearest nanosecond.
pub open spec fn spec_budget(fps: nat) -> nat {
    let q = NANOS as nat / fps;
    let r = NANOS as nat % fps;
    if 2 * r > fps || (2 * r == fps && !tie_below(fps)) {
        q + 1
    } else {
        q
    }
}

pub open spec fn later(a: u64, b: u64) -> int {
    if a < b {
        b as int
    } else {
        a as int
    }
}

/// The frame cap: how long a frame may take, and when the next one is due.
pub struct FrameLimit {
    pub budget: u64,
    pub next: u64,
}

impl FrameLimit {
    /// A cap of `fps` frames a second, the first frame due now. A cap of nought
    /// is no cap, and no limit is made for it.
    pub fn new(fps: u32, now: u64) -> (f: FrameLimit)
        requires
            fps > 0,
        ensures
            f.budget == spec_budget(fps as nat),
            f.next == now,
    {
        let frames: u64 = fps as u64;
        let q = NANOS / frames;
        let r = NANOS % frames;
        let below = fps == 1024 || fps == 16_000_000 || fps == 80_000_000;
        let budget = if 2 * r > frames || (2 * r == frames && !below) {
            q + 1
        } else {
            q
        };
        FrameLimit { budget, next: now }
    }

    /// One frame has ended at `now`: how long to sleep before the next one,
    /// and the deadline after it. A frame that ended before its slot sleeps
    /// until the slot; one that overran does not sleep, and the next slot is
    /// counted from now.
    pub fn pace(&mut self, now: u64) -> (sleep: u64)
        requires
            later(old(self).next, now) + old(self).budget <= u64::MAX,
        ensures
            now + sleep == later(old(self).next, now),
            final(self).next == later(old(self).next, now) + old(self).budget,
            final(self).budget == old(self).budget,
    {
        let sleep: u64 = if self.next > now {
            self.next - now
        } else {
            0
        };
        let from: u64 = if self.next > now {
            self.next
        } else {
            now
        };
        self.next = from + self.budget;
        sleep
    }
}

} // verus!
