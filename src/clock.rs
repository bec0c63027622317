use vstd::prelude::*;

verus! {

/// Simulation ticks in one second.
pub const TICKS_PER_SECOND: u64 = 60;

/// Nanoseconds in one second.
pub const NANOS_PER_SECOND: u64 = 1_000_000_000;

/// Whole ticks that fit into `elapsed` nanoseconds of wall clock.
pub open spec fn ticks_in(elapsed: int) -> int {
    (elapsed * TICKS_PER_SECOND) / (NANOS_PER_SECOND as int)
}

/// Whether `ticks` ticks of simulated time are no later than `elapsed`
/// nanoseconds of wall clock.
pub open spec fn fits_in(ticks: int, elapsed: int) -> bool {
    ticks * NANOS_PER_SECOND <= elapsed * TICKS_PER_SECOND
}

proof fn lemma_fits_iff_within(t: int, elapsed: int)
    requires
        elapsed >= 0,
    ensures
        fits_in(t, elapsed) <==> t <= ticks_in(elapsed),
{
    let x = elapsed * TICKS_PER_SECOND;
    let n = NANOS_PER_SECOND as int;
    let q = x / n;
    let r = x % n;
    assert(x == q * n + r && 0 <= r < n) by {
        vstd::arithmetic::div_mod::lemma_fundamental_div_mod(x, n);
    }
    assert(t * n <= q * n + r <==> t <= q) by (nonlinear_arith)
        requires
            0 <= r < n,
            n > 0,
    ;
}

/// Counts the fixed simulation steps taken since the wall clock started.
/// Simulated time is `ticks` sixtieths of a second.
#[derive(Clone, Copy, Debug, PartialEq, Eq, Structural)]
pub struct FixedStepClock {
    pub ticks: u64,
}

impl FixedStepClock {
    pub fn new() -> (r: FixedStepClock)
        ensures
            r.ticks == 0,
    {
        FixedStepClock { ticks: 0 }
    }

    /// Takes one tick when a whole tick of wall clock lies beyond the
    /// simulated time, and reports whether it did.
    pub fn try_tick(&mut self, elapsed_nanos: u64) -> (r: bool)
        ensures
            r == fits_in(old(self).ticks + 1, elapsed_nanos as int),
            final(self).ticks == if r { old(self).ticks + 1 } else { old(self).ticks as int },
    {
        assert(elapsed_nanos * TICKS_PER_SECOND <= u64::MAX * TICKS_PER_SECOND) by (nonlinear_arith);
        let wall: u128 = elapsed_nanos as u128 * TICKS_PER_SECOND as u128;
        let t: u128 = self.ticks as u128 + 1;
        assert(t * NANOS_PER_SECOND <= u128::MAX) by (nonlinear_arith)
            requires
                t <= u64::MAX + 1,
        ;
        let next: u128 = t * NANOS_PER_SECOND as u128;
        if next <= wall {
            proof {
                lemma_fits_iff_within(self.ticks + 1, elapsed_nanos as int);
                assert(ticks_in(elapsed_nanos as int) < u64::MAX) by {
                    vstd::arithmetic::div_mod::lemma_div_is_ordered(
                        elapsed_nanos * TICKS_PER_SECOND,
                        u64::MAX * TICKS_PER_SECOND,
                        NANOS_PER_SECOND as int,
                    );
                }
            }
            self.ticks = self.ticks + 1;
            true
        } else {
            false
        }
    }

    /// Takes every tick that is due at `elapsed_nanos` and returns how many.
    ///
    /// Afterwards the simulated time is the largest whole number of ticks not
    /// past the wall clock, unless it was already further on, in which case it
    /// stays.
    pub fn drain(&mut self, elapsed_nanos: u64) -> (n: u64)
        ensures
            final(self).ticks == if ticks_in(elapsed_nanos as int) > old(self).ticks {
                ticks_in(elapsed_nanos as int)
            } else {
                old(self).ticks as int
            },
            n == final(self).ticks - old(self).ticks,
            fits_in(old(self).ticks as int, elapsed_nanos as int) ==> {
                &&& fits_in(final(self).ticks as int, elapsed_nanos as int)
                &&& !fits_in(final(self).ticks + 1, elapsed_nanos as int)
            },
    {
        let ghost start = self.ticks as int;
        let ghost due = ticks_in(elapsed_nanos as int);
        let mut n: u64 = 0;
        proof {
            assert(due >= 0) by (nonlinear_arith)
                requires
                    due == (elapsed_nanos * TICKS_PER_SECOND) / (NANOS_PER_SECOND as int),
            ;
        }
        while self.try_tick(elapsed_nanos)
            invariant
                due == ticks_in(elapsed_nanos as int),
                due >= 0,
                0 <= start <= self.ticks,
                self.ticks <= start || self.ticks <= due,
                n == self.ticks - start,
            decreases due - self.ticks,
        {
            proof {
                lemma_fits_iff_within(self.ticks as int, elapsed_nanos as int);
            }
            assert(n + 1 == self.ticks - start);
            n = n + 1;
        }
        proof {
            lemma_fits_iff_within(self.ticks + 1, elapsed_nanos as int);
            lemma_fits_iff_within(self.ticks as int, elapsed_nanos as int);
            lemma_fits_iff_within(start, elapsed_nanos as int);
        }
        n
    }
}

} // verus!
