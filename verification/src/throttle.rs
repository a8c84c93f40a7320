use vstd::prelude::*;

verus! {

/// The pause after every call that changes or removes something: a flat
/// delay, with no allowance for bursts. The throttle remembers the earliest
/// instant at which the next such call is permitted.
#[derive(Clone, Copy, Debug, PartialEq, Eq, Structural)]
pub struct Throttle {
    interval_ms: u64,
    next_permitted_ms: Option<u64>,
}

/// The pause that is used unless another one is given, in milliseconds.
pub const DEFAULT_INTERVAL_MS: u64 = 2_000;

impl Throttle {
    /// The pause, in milliseconds.
    pub closed spec fn interval(&self) -> u64 {
        self.interval_ms
    }

    /// The earliest instant of the next call, in milliseconds on the caller's
    /// clock; `None` until the throttle was first engaged.
    pub closed spec fn next_permitted(&self) -> Option<u64> {
        self.next_permitted_ms
    }

    /// A throttle that pauses for `interval_ms` milliseconds.
    pub fn new(interval_ms: u64) -> (r: Throttle)
        ensures
            r.interval() == interval_ms,
            r.next_permitted().is_none(),
    {
        Throttle { interval_ms, next_permitted_ms: None }
    }

    /// A throttle with the usual pause of two seconds.
    pub fn standard() -> (r: Throttle)
        ensures
            r.interval() == DEFAULT_INTERVAL_MS,
            r.next_permitted().is_none(),
    {
        Throttle::new(DEFAULT_INTERVAL_MS)
    }

    /// The pause, in milliseconds.
    pub fn interval_ms(&self) -> (r: u64)
        ensures
            r == self.interval(),
    {
        self.interval_ms
    }

    /// Engages the throttle at the instant `now_ms`, after a call was made.
    /// Returns how long the caller has to sleep, which is always the whole
    /// pause, and notes when the next call is permitted: one pause after
    /// `now_ms`, or at the end of the clock where that lies beyond it.
    pub fn wait(&mut self, now_ms: u64) -> (r: u64)
        ensures
            r == old(self).interval(),
            final(self).interval() == old(self).interval(),
            final(self).next_permitted() == Some(
                if now_ms + old(self).interval() <= u64::MAX {
                    (now_ms + old(self).interval()) as u64
                } else {
                    u64::MAX
                },
            ),
    {
        self.next_permitted_ms = Some(now_ms.saturating_add(self.interval_ms));
        self.interval_ms
    }

    /// How long a call at the instant `now_ms` still has to be held back: the
    /// time up to the next permitted instant, and nothing once it has passed
    /// or while the throttle was never engaged.
    pub fn remaining(&self, now_ms: u64) -> (r: u64)
        ensures
            r == match self.next_permitted() {
                Some(at) => if at > now_ms {
                    (at - now_ms) as u64
                } else {
                    0
                },
                None => 0,
            },
    {
        match self.next_permitted_ms {
            Some(at) => if at > now_ms {
                at - now_ms
            } else {
                0
            },
            None => 0,
        }
    }
}

} // verus!
