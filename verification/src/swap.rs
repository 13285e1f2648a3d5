use vstd::prelude::*;

verus! {

/// The global direction sign and the timer that periodically flips it.
/// `ticks` counts the ticks elapsed since the last flip; once `interval`
/// ticks have elapsed the sign reverses and the counter restarts.
#[derive(Clone, Copy, PartialEq, Eq, Structural, Debug)]
pub struct SwapState {
    pub sign: i64,
    pub ticks: u64,
    pub interval: u64,
}

/// The opposite of a valid sign.
pub open spec fn flipped(sign: i64) -> i64 {
    if sign == 1 {
        -1i64
    } else {
        1i64
    }
}

/// What one tick does to the swap state: flip and restart the counter when
/// the interval has elapsed, otherwise just count the tick.
pub open spec fn spec_advance(s: SwapState) -> SwapState {
    if s.ticks + 1 >= s.interval {
        SwapState { sign: flipped(s.sign), ticks: 0, interval: s.interval }
    } else {
        SwapState { sign: s.sign, ticks: (s.ticks + 1) as u64, interval: s.interval }
    }
}

/// The swap state reached after `k` ticks.
pub open spec fn advance_many(s: SwapState, k: nat) -> SwapState
    decreases k,
{
    if k == 0 {
        s
    } else {
        spec_advance(advance_many(s, (k - 1) as nat))
    }
}

impl SwapState {
    /// A sign is either plus or minus one, the interval is positive, and
    /// the counter has not yet reached the interval.
    pub open spec fn wf(self) -> bool {
        &&& self.sign == 1 || self.sign == -1
        &&& 0 < self.interval
        &&& self.ticks < self.interval
    }

    /// A fresh swap state: positive sign, counter at zero.
    pub fn new(interval: u64) -> (s: SwapState)
        requires
            0 < interval,
        ensures
            s.wf(),
            s.sign == 1,
            s.ticks == 0,
            s.interval == interval,
    {
        SwapState { sign: 1, ticks: 0, interval }
    }

    /// Registers one elapsed tick: the sign flips exactly when the
    /// configured interval has elapsed since the last flip, and is kept
    /// unchanged on every earlier tick.
    pub fn advance(&mut self)
        requires
            old(self).wf(),
        ensures
            final(self).wf(),
            *final(self) == spec_advance(*old(self)),
            old(self).ticks + 1 < old(self).interval ==> final(self).sign == old(self).sign
                && final(self).ticks == old(self).ticks + 1,
            old(self).ticks + 1 == old(self).interval ==> final(self).sign == flipped(
                old(self).sign,
            ) && final(self).ticks == 0,
            final(self).interval == old(self).interval,
    {
        if self.ticks + 1 >= self.interval {
            self.sign = -self.sign;
            self.ticks = 0;
        } else {
            self.ticks = self.ticks + 1;
        }
    }
}

/// Well-formedness is preserved by any number of ticks, and the interval
/// never changes.
pub proof fn lemma_advance_many_wf(s: SwapState, k: nat)
    requires
        s.wf(),
    ensures
        advance_many(s, k).wf(),
        advance_many(s, k).interval == s.interval,
    decreases k,
{
    if k != 0 {
        lemma_advance_many_wf(s, (k - 1) as nat);
    }
}

/// The sign flips only after the configured interval elapses, never
/// before: as long as fewer ticks have passed than remain of the interval,
/// the sign is exactly the starting sign and the counter has only counted.
pub proof fn lemma_no_flip_before_interval(s: SwapState, k: nat)
    requires
        s.wf(),
        s.ticks + k < s.interval,
    ensures
        advance_many(s, k).sign == s.sign,
        advance_many(s, k).ticks == s.ticks + k,
        advance_many(s, k).interval == s.interval,
    decreases k,
{
    if k != 0 {
        lemma_no_flip_before_interval(s, (k - 1) as nat);
    }
}

/// The sign does flip once the interval elapses: after exactly the ticks
/// that remained of the interval, the sign is the opposite one and the
/// counter has restarted.
pub proof fn lemma_flip_at_interval(s: SwapState)
    requires
        s.wf(),
    ensures
        advance_many(s, (s.interval - s.ticks) as nat).sign == flipped(s.sign),
        advance_many(s, (s.interval - s.ticks) as nat).ticks == 0,
{
    let k = (s.interval - s.ticks - 1) as nat;
    lemma_no_flip_before_interval(s, k);
    assert(advance_many(s, (s.interval - s.ticks) as nat) == spec_advance(advance_many(s, k)));
}

} // verus!
