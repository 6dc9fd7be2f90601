//! Countdown timers: the one mechanism by which entities expire.
use vstd::prelude::*;

verus! {

/// What is left of a countdown of `remaining` milliseconds once `dt` more
/// have passed: the rest while it is positive, nothing from the moment it
/// reaches zero.
pub open spec fn elapsed(remaining: int, dt: int) -> Option<int> {
    if remaining > dt {
        Some(remaining - dt)
    } else {
        None
    }
}

/// The time that a live entity has left, in milliseconds. A value of this
/// type is always positive: a timer that has run out is no timer.
#[derive(Clone, Copy, Debug, PartialEq, Eq, Structural)]
pub struct Lifetime {
    ms: u64,
}

impl View for Lifetime {
    type V = int;

    closed spec fn view(&self) -> int {
        self.ms as int
    }
}

impl Lifetime {
    #[verifier::type_invariant]
    spec fn positive(self) -> bool {
        self.ms > 0
    }

    /// A timer of `ms` milliseconds, or nothing where `ms` is zero.
    pub fn new(ms: u64) -> (timer: Option<Lifetime>)
        ensures
            ms == 0 ==> timer is None,
            ms > 0 ==> timer is Some && timer->0@ == ms,
    {
        if ms == 0 {
            None
        } else {
            Some(Lifetime { ms })
        }
    }

    /// A timer of `ms` milliseconds, for a duration known to be positive.
    pub(crate) fn started(ms: u64) -> (timer: Lifetime)
        requires
            ms > 0,
        ensures
            timer@ == ms,
    {
        Lifetime { ms }
    }

    /// The milliseconds that are left.
    pub fn remaining(&self) -> (ms: u64)
        ensures
            ms == self@,
            ms > 0,
    {
        proof {
            use_type_invariant(self);
        }
        self.ms
    }

    /// The timer after `dt` more milliseconds, or nothing once it has run
    /// out.
    pub fn elapse(self, dt: u32) -> (rest: Option<Lifetime>)
        ensures
            match rest {
                Some(timer) => elapsed(self@, dt as int) == Some(timer@),
                None => elapsed(self@, dt as int) is None,
            },
    {
        if self.ms > dt as u64 {
            Some(Lifetime { ms: self.ms - dt as u64 })
        } else {
            None
        }
    }
}

} // verus!
