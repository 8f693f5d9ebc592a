//! The scoreboard: two monotonic counters and a redraw-trigger flag,
//! mutated only when the ball crosses a goal boundary. The presentation
//! collaborator consumes and clears the flag.

use vstd::prelude::*;

verus! {

/// Two score counters and the stale-display flag.
pub struct ScoreBoard {
    pub first: u32,
    pub second: u32,
    pub needs_refresh: bool,
}

impl ScoreBoard {
    /// A fresh scoreboard: both counters at zero, display up to date.
    pub fn new() -> (s: ScoreBoard)
        ensures
            s.first == 0,
            s.second == 0,
            !s.needs_refresh,
    {
        ScoreBoard { first: 0, second: 0, needs_refresh: false }
    }

    /// A goal for the first player: the first counter rises by exactly
    /// one and the display becomes stale.
    pub fn inc_first(&mut self)
        requires
            old(self).first < u32::MAX,
        ensures
            final(self).first == old(self).first + 1,
            final(self).second == old(self).second,
            final(self).needs_refresh,
    {
        self.first = self.first + 1;
        self.needs_refresh = true;
    }

    /// A goal for the second player: the second counter rises by exactly
    /// one and the display becomes stale.
    pub fn inc_second(&mut self)
        requires
            old(self).second < u32::MAX,
        ensures
            final(self).second == old(self).second + 1,
            final(self).first == old(self).first,
            final(self).needs_refresh,
    {
        self.second = self.second + 1;
        self.needs_refresh = true;
    }

    /// The presentation collaborator has redrawn the display: clear the
    /// stale flag, leaving the counters alone.
    pub fn clear_refresh(&mut self)
        ensures
            final(self).first == old(self).first,
            final(self).second == old(self).second,
            !final(self).needs_refresh,
    {
        self.needs_refresh = false;
    }
}

} // verus!
