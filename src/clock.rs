//! Turns the game's wrapping 16-bit frame counter into a 64-bit frame count.
use vstd::prelude::*;
use crate::change_cell::Observation;

verus! {

/// Largest `accumulated` with which the clock may still advance: far enough
/// below `i64::MAX` that a wrap and the delays added to a frame count fit.
pub const ACCUMULATED_LIMIT: i64 = 9223372036853727232;

/// `accumulated` after one tick that saw the counter go from
/// `frames.previous` to `frames.current`: a decrease is a wrap, which adds the
/// previous value plus one.
pub open spec fn advanced(accumulated: int, frames: Observation<u16>) -> int {
    if frames.current < frames.previous {
        accumulated + frames.previous + 1
    } else {
        accumulated
    }
}

/// The logical frame count `accumulated + narrow`.
#[derive(Clone, Copy, Debug)]
pub struct FrameClock {
    pub accumulated: i64,
}

impl FrameClock {
    pub fn new() -> (c: FrameClock)
        ensures
            c.accumulated == 0,
    {
        FrameClock { accumulated: 0 }
    }

    pub open spec fn spec_frame_count(&self, narrow: u16) -> int {
        self.accumulated + narrow
    }

    /// Frames elapsed, given the counter's current value.
    pub fn frame_count(&self, narrow: u16) -> (r: i64)
        requires
            self.accumulated <= ACCUMULATED_LIMIT + 65536,
        ensures
            r == self.spec_frame_count(narrow),
    {
        self.accumulated + narrow as i64
    }

    /// `accumulated` is low enough for `advance`.
    pub fn has_headroom(&self) -> (r: bool)
        ensures
            r == (self.accumulated <= ACCUMULATED_LIMIT),
    {
        self.accumulated <= ACCUMULATED_LIMIT
    }

    /// Accounts for one tick's change of the counter.
    pub fn advance(&mut self, frames: Observation<u16>)
        requires
            old(self).accumulated <= ACCUMULATED_LIMIT,
        ensures
            final(self).accumulated == advanced(old(self).accumulated as int, frames),
    {
        if frames.current < frames.previous {
            self.accumulated = self.accumulated + frames.previous as i64 + 1;
        }
    }

    /// Restarts the count so that it is zero at the counter's value `narrow`.
    pub fn restart(&mut self, narrow: u16)
        ensures
            final(self).accumulated == -(narrow as int),
            final(self).spec_frame_count(narrow) == 0,
    {
        self.accumulated = -(narrow as i64);
    }
}

/// Where the counter moves on by one frame, wrap or not, the frame count moves
/// on by exactly one.
pub proof fn frame_count_steps_by_one(accumulated: int, frames: Observation<u16>)
    requires
        frames.current as int == (frames.previous + 1) % 65536,
    ensures
        advanced(accumulated, frames) + frames.current == accumulated + frames.previous + 1,
{
}

/// The frame count never goes down from one tick to the next.
pub proof fn frame_count_never_decreases(accumulated: int, frames: Observation<u16>)
    ensures
        advanced(accumulated, frames) + frames.current >= accumulated + frames.previous,
{
}

} // verus!
