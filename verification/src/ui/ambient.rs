//! The time side of the ambient home screen: where in its daily journey the
//! moving circle rests, as an exact fraction of the arc, and when that
//! position can next change.
use vstd::prelude::*;

verus! {

/// Seconds in a local day.
pub const SECONDS_PER_DAY: u32 = 86_400;

/// The daily schedule of the ambient journey, in seconds since local
/// midnight, with the period between position updates.
#[derive(Clone, Copy, Debug, Eq, PartialEq, Structural)]
pub struct AmbientSchedule {
    pub start_seconds: u32,
    pub end_seconds: u32,
    pub update_period_seconds: u32,
}

/// The schedule's part of a valid configuration: the start precedes the end
/// and the update period is positive and no longer than the span.
pub open spec fn schedule_valid(s: AmbientSchedule) -> bool {
    &&& s.start_seconds < s.end_seconds
    &&& s.update_period_seconds > 0
    &&& s.update_period_seconds <= s.end_seconds - s.start_seconds
}

/// The documented default: 08:00 to 20:00, updating every five minutes.
pub open spec fn default_schedule() -> AmbientSchedule {
    AmbientSchedule { start_seconds: 28_800, end_seconds: 72_000, update_period_seconds: 300 }
}

/// Seconds since local midnight for a local epoch time.
pub open spec fn seconds_of_day(local_epoch_seconds: int) -> int {
    local_epoch_seconds % (SECONDS_PER_DAY as int)
}

/// How far along its span the journey is at time of day `t`, in seconds:
/// nothing before the start, the whole span from the end on, and in between
/// the latest update boundary counted from the start.
pub open spec fn journey_elapsed(s: AmbientSchedule, t: int) -> int {
    if t < s.start_seconds {
        0
    } else if t >= s.end_seconds {
        s.end_seconds - s.start_seconds
    } else {
        ((t - s.start_seconds) / (s.update_period_seconds as int)) * s.update_period_seconds
    }
}

/// The next update boundary after `t` inside the span: the following grid
/// point, or the end when the grid does not land on it first.
pub open spec fn next_boundary(s: AmbientSchedule, t: int) -> int {
    let next = s.start_seconds + ((t - s.start_seconds) / (s.update_period_seconds as int) + 1)
        * s.update_period_seconds;
    if next < s.end_seconds {
        next
    } else {
        s.end_seconds as int
    }
}

/// Seconds until the journey position can next change, at least one.
pub open spec fn until_next_boundary(s: AmbientSchedule, t: int) -> int {
    let delta = if t < s.start_seconds {
        s.start_seconds - t
    } else if t >= s.end_seconds {
        SECONDS_PER_DAY - seconds_of_day(t)
    } else {
        let d = next_boundary(s, t) - t;
        if d < 0 { 0 } else { d }
    };
    if delta < 1 { 1 } else { delta }
}

/// The update period is positive wherever it is used: when `t` falls
/// inside the span.
pub open spec fn period_ok(s: AmbientSchedule, t: int) -> bool {
    s.start_seconds <= t < s.end_seconds ==> s.update_period_seconds > 0
}

/// A place on the arc as an exact fraction of it: the circle is drawn at
/// `numerator / denominator` of the way along.
#[derive(Clone, Copy, Debug, Eq, PartialEq, Structural)]
pub struct JourneyFraction {
    pub numerator: u32,
    pub denominator: u32,
}

/// The circle's place at time of day `t`: the arc's start before the start
/// time, its end from the end time on, and in between the latest update
/// boundary counted from the start, over the span.
pub open spec fn journey_fraction_spec(s: AmbientSchedule, t: int) -> JourneyFraction {
    if t < s.start_seconds {
        JourneyFraction { numerator: 0, denominator: 1 }
    } else if t >= s.end_seconds {
        JourneyFraction { numerator: 1, denominator: 1 }
    } else {
        JourneyFraction {
            numerator: journey_elapsed(s, t) as u32,
            denominator: (s.end_seconds - s.start_seconds) as u32,
        }
    }
}

/// Two fractions name the same place on the arc.
pub open spec fn same_place(a: JourneyFraction, b: JourneyFraction) -> bool {
    a.numerator * b.denominator == b.numerator * a.denominator
}

/// Whether two fractions name the same place on the arc.
pub fn same_place_exec(a: JourneyFraction, b: JourneyFraction) -> (r: bool)
    ensures
        r == same_place(a, b),
{
    let (an, ad, bn, bd) = (a.numerator as u64, a.denominator as u64, b.numerator as u64, b.denominator as u64);
    proof {
        assert(an * bd <= u32::MAX * u32::MAX) by (nonlinear_arith)
            requires
                an <= u32::MAX,
                bd <= u32::MAX,
        ;
        assert(bn * ad <= u32::MAX * u32::MAX) by (nonlinear_arith)
            requires
                bn <= u32::MAX,
                ad <= u32::MAX,
        ;
    }
    an * bd == bn * ad
}

/// The following grid point does not overflow `u32` (it cannot when the
/// end plus one period fits).
pub open spec fn boundary_fits(s: AmbientSchedule, t: int) -> bool {
    s.start_seconds <= t < s.end_seconds ==> s.start_seconds + ((t - s.start_seconds) / (
    s.update_period_seconds as int) + 1) * s.update_period_seconds <= u32::MAX
}

/// Seconds since local midnight for a local epoch timestamp.
pub fn local_seconds_of_day(local_epoch_seconds: u32) -> (r: u32)
    ensures
        r == seconds_of_day(local_epoch_seconds as int),
        r < SECONDS_PER_DAY,
{
    local_epoch_seconds % SECONDS_PER_DAY
}

impl AmbientSchedule {
    /// The documented default schedule.
    pub fn default_schedule() -> (r: Self)
        ensures
            r == default_schedule(),
            schedule_valid(r),
    {
        AmbientSchedule { start_seconds: 28_800, end_seconds: 72_000, update_period_seconds: 300 }
    }

    /// Whether the schedule is valid.
    pub fn is_valid(&self) -> (r: bool)
        ensures
            r == schedule_valid(*self),
    {
        self.start_seconds < self.end_seconds && self.update_period_seconds > 0 && self.update_period_seconds
            <= self.end_seconds - self.start_seconds
    }

    /// Where on the arc the circle rests at `local_seconds_of_day`: at its
    /// start before the start time, at its end from the end time on, and in
    /// between at the latest update boundary over the span.
    pub fn journey_fraction(&self, local_seconds_of_day: u32) -> (r: JourneyFraction)
        requires
            period_ok(*self, local_seconds_of_day as int),
        ensures
            r == journey_fraction_spec(*self, local_seconds_of_day as int),
    {
        if local_seconds_of_day < self.start_seconds {
            return JourneyFraction { numerator: 0, denominator: 1 };
        }
        if local_seconds_of_day >= self.end_seconds {
            return JourneyFraction { numerator: 1, denominator: 1 };
        }
        let elapsed = local_seconds_of_day - self.start_seconds;
        let steps = elapsed / self.update_period_seconds;
        proof {
            assert(steps * self.update_period_seconds <= elapsed) by (nonlinear_arith)
                requires
                    steps == elapsed / self.update_period_seconds,
                    self.update_period_seconds > 0,
            ;
        }
        let boundary_seconds = self.start_seconds + steps * self.update_period_seconds;
        JourneyFraction {
            numerator: boundary_seconds - self.start_seconds,
            denominator: self.end_seconds - self.start_seconds,
        }
    }

    /// How many seconds until the journey position can next change; never
    /// zero.
    pub fn seconds_until_next_boundary(&self, local_seconds_of_day: u32) -> (r: u32)
        requires
            period_ok(*self, local_seconds_of_day as int),
            boundary_fits(*self, local_seconds_of_day as int),
        ensures
            r == until_next_boundary(*self, local_seconds_of_day as int),
            r >= 1,
    {
        let delta = if local_seconds_of_day < self.start_seconds {
            self.start_seconds - local_seconds_of_day
        } else if local_seconds_of_day >= self.end_seconds {
            SECONDS_PER_DAY - (local_seconds_of_day % SECONDS_PER_DAY)
        } else {
            let elapsed = local_seconds_of_day - self.start_seconds;
            let steps = elapsed / self.update_period_seconds;
            proof {
                assert(steps < elapsed + 1);
                assert((steps + 1) * self.update_period_seconds >= 0) by (nonlinear_arith)
                    requires
                        self.update_period_seconds > 0,
                ;
            }
            let next = self.start_seconds + (steps + 1) * self.update_period_seconds;
            let next_boundary = if next < self.end_seconds {
                next
            } else {
                self.end_seconds
            };
            if next_boundary >= local_seconds_of_day {
                next_boundary - local_seconds_of_day
            } else {
                0
            }
        };
        if delta < 1 {
            1
        } else {
            delta
        }
    }
}

/// The journey never runs backwards within a day and stays within its span.
pub proof fn lemma_journey_monotone(s: AmbientSchedule, t1: int, t2: int)
    requires
        schedule_valid(s),
        t1 <= t2,
    ensures
        0 <= journey_elapsed(s, t1) <= journey_elapsed(s, t2) <= s.end_seconds - s.start_seconds,
{
    let p = s.update_period_seconds as int;
    let span = s.end_seconds - s.start_seconds;
    if s.start_seconds <= t1 < s.end_seconds {
        let e1 = t1 - s.start_seconds;
        assert(0 <= (e1 / p) * p <= e1) by (nonlinear_arith)
            requires
                p > 0,
                e1 >= 0,
        ;
    }
    if s.start_seconds <= t2 < s.end_seconds {
        let e2 = t2 - s.start_seconds;
        assert(0 <= (e2 / p) * p <= e2) by (nonlinear_arith)
            requires
                p > 0,
                e2 >= 0,
        ;
        if s.start_seconds <= t1 {
            let e1 = t1 - s.start_seconds;
            assert((e1 / p) * p <= (e2 / p) * p) by (nonlinear_arith)
                requires
                    p > 0,
                    0 <= e1 <= e2,
            ;
        }
    }
}

/// The position holds still until the reported wait has passed: for every
/// earlier second the elapsed journey is the one at `t`.
pub proof fn lemma_no_change_before_next_boundary(s: AmbientSchedule, t: int, d: int)
    requires
        schedule_valid(s),
        0 <= t,
        0 <= d < until_next_boundary(s, t),
    ensures
        journey_elapsed(s, t + d) == journey_elapsed(s, t),
{
    let p = s.update_period_seconds as int;
    if s.start_seconds <= t < s.end_seconds {
        let e = t - s.start_seconds;
        let q = e / p;
        assert(q * p <= e < (q + 1) * p) by (nonlinear_arith)
            requires
                p > 0,
                e >= 0,
                q == e / p,
        ;
        if d > 0 {
            let e2 = e + d;
            assert(e2 < (q + 1) * p);
            assert(e2 / p == q) by (nonlinear_arith)
                requires
                    p > 0,
                    q * p <= e2 < (q + 1) * p,
            ;
        }
    }
}

} // verus!
