//! Small helpers of the command line front end.

use vstd::prelude::*;

verus! {

/// Dirt simple div mod function.
pub fn div_mod(main: u64, divider: u64) -> (parts: (u64, u64))
    requires
        divider != 0,
    ensures
        parts.0 == main / divider,
        parts.1 == main % divider,
        parts.0 * divider + parts.1 == main,
        parts.1 < divider,
{
    let whole = main / divider;
    let rem = main % divider;
    proof {
        vstd::arithmetic::div_mod::lemma_fundamental_div_mod(main as int, divider as int);
        assert(whole * divider == divider * whole) by (nonlinear_arith);
    }
    (whole, rem)
}

/// A duration in whole seconds, split into the units a reader counts in.
#[derive(Debug, Clone, Copy, PartialEq, Eq, Structural)]
pub struct HumanDuration {
    pub days: u64,
    pub hours: u64,
    pub minutes: u64,
    pub seconds: u64,
}

/// Splits a number of seconds into days, hours, minutes and seconds, so that
/// a reader sees 10 000 seconds as 2 hours, 46 minutes and 40 seconds.
pub fn humanize(seconds: u64) -> (parts: HumanDuration)
    ensures
        parts.seconds < 60,
        parts.minutes < 60,
        parts.hours < 24,
        ((parts.days * 24 + parts.hours) * 60 + parts.minutes) * 60 + parts.seconds == seconds,
{
    let (minutes, seconds) = div_mod(seconds, 60);
    let (hours, minutes) = div_mod(minutes, 60);
    let (days, hours) = div_mod(hours, 24);
    HumanDuration { days, hours, minutes, seconds }
}

/// A cursor that hands out the indices of a pool in turn and starts over
/// after the last.
#[derive(Debug, Clone, Copy, PartialEq, Eq, Structural)]
pub struct RoundRobin {
    /// The size of the pool.
    pub size: usize,
    /// The index that is handed out next.
    pub cursor: usize,
}

impl RoundRobin {
    /// A cursor at the start of a pool of `size` members.
    pub fn new(size: usize) -> (turns: Self)
        ensures
            turns.size == size,
            turns.cursor == 0,
    {
        RoundRobin { size, cursor: 0 }
    }

    /// The index whose turn it is; the turn passes to the next index, and
    /// after the last to the first.
    pub fn next(&mut self) -> (index: usize)
        requires
            old(self).cursor < old(self).size,
        ensures
            index == old(self).cursor,
            final(self).size == old(self).size,
            final(self).cursor == (old(self).cursor + 1) % (old(self).size as int),
            final(self).cursor < final(self).size,
    {
        let index = self.cursor;
        self.cursor = self.cursor + 1;
        if self.cursor == self.size {
            self.cursor = 0;
        }
        assert(final(self).cursor == (old(self).cursor + 1) % (old(self).size as int)) by {
            if old(self).cursor + 1 == old(self).size {
                vstd::arithmetic::div_mod::lemma_mod_self_0(old(self).size as int);
            } else {
                vstd::arithmetic::div_mod::lemma_small_mod(
                    (old(self).cursor + 1) as nat,
                    old(self).size as nat,
                );
            }
        }
        index
    }
}

} // verus!
