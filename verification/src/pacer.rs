//! Frame pacer: converts the video capture's irregular arrival times into an
//! admission schedule matching a fixed target frame rate.
//!
//! The first frame is admitted unconditionally and fixes the schedule; after
//! that a frame is admitted exactly when its relative timestamp has reached
//! the next scheduled target, and the target then advances by one period from
//! its own prior value — never from the admitted frame's actual arrival time —
//! so jitter cannot accumulate as drift. Frames that arrive before their slot
//! are discarded.

use vstd::prelude::*;

verus! {

use crate::clock::MEDIA_UNITS_PER_SECOND;

/// Upper bound on the relative media times the pacer schedules (100 ns
/// units); keeps the schedule arithmetic inside `i64`.
pub const MAX_MEDIA_TIME: i64 = 0x4000_0000_0000_0000;

/// Why a pacer could not be built.
#[derive(Clone, Copy, Debug, PartialEq, Eq, Structural)]
pub enum PacerError {
    /// The requested frame rate is zero or higher than the 100 ns time base
    /// can express, so no positive frame period exists.
    InvalidFrameRate,
}

/// Admission-control state for one video track.
#[derive(Clone, Copy, Debug, PartialEq, Eq, Structural)]
pub struct FramePacer {
    /// Target frame period in 100 ns units; always positive.
    pub period: i64,
    /// Whether the first frame has been seen.
    pub started: bool,
    /// Relative time of the next frame to admit; meaningful once started.
    pub next_target: i64,
}

/// One admission decision of the pacer on a frame with relative arrival
/// time `t`: the first frame, and any frame at or past the scheduled
/// target, is admitted.
pub open spec fn pacer_admits(period: int, started: bool, next_target: int, t: int) -> bool {
    !started || t >= next_target
}

/// The admitted subsequence of `arrivals`, for a pacer that has already
/// seen a first frame iff `started`, with `next_target` its next slot.
pub open spec fn admitted_after(
    period: int,
    started: bool,
    next_target: int,
    arrivals: Seq<int>,
) -> Seq<int>
    decreases arrivals.len(),
{
    if arrivals.len() == 0 {
        Seq::empty()
    } else {
        let t: int = arrivals[0];
        if pacer_admits(period, started, next_target, t) {
            let next: int = if !started {
                t + period
            } else {
                next_target + period
            };
            seq![t] + admitted_after(period, true, next, arrivals.drop_first())
        } else {
            admitted_after(period, started, next_target, arrivals.drop_first())
        }
    }
}

/// The relative arrival times a fresh pacer with the given period admits
/// out of `arrivals`.
pub open spec fn admitted_times(period: int, arrivals: Seq<int>) -> Seq<int> {
    admitted_after(period, false, 0, arrivals)
}

/// Arrival times in non-decreasing order.
pub open spec fn sorted_times(s: Seq<int>) -> bool {
    forall|i: int, j: int| 0 <= i <= j < s.len() ==> s[i] <= s[j]
}

impl FramePacer {
    pub open spec fn wf(self) -> bool {
        &&& 1 <= self.period <= MEDIA_UNITS_PER_SECOND
        &&& self.started ==> 0 <= self.next_target <= MAX_MEDIA_TIME + self.period
    }

    /// Builds a pacer for the requested frame rate; the target period is one
    /// second divided by the rate, in 100 ns units. A rate of zero, or one
    /// too high for a positive period, is rejected.
    pub fn new(frame_rate: u32) -> (r: Result<FramePacer, PacerError>)
        ensures
            match r {
                Ok(p) => {
                    &&& p.wf()
                    &&& !p.started
                    &&& 1 <= frame_rate <= MEDIA_UNITS_PER_SECOND
                    &&& p.period == (MEDIA_UNITS_PER_SECOND as int) / (frame_rate as int)
                },
                Err(PacerError::InvalidFrameRate) => frame_rate == 0 || frame_rate
                    > MEDIA_UNITS_PER_SECOND,
            },
    {
        if frame_rate == 0 || frame_rate > MEDIA_UNITS_PER_SECOND as u32 {
            return Err(PacerError::InvalidFrameRate);
        }
        let period: i64 = MEDIA_UNITS_PER_SECOND / (frame_rate as i64);
        proof {
            assert(1 <= (MEDIA_UNITS_PER_SECOND as int) / (frame_rate as int) <= (
            MEDIA_UNITS_PER_SECOND as int)) by (nonlinear_arith)
                requires
                    1 <= frame_rate <= MEDIA_UNITS_PER_SECOND as int,
            ;
        }
        Ok(FramePacer { period, started: false, next_target: 0 })
    }

    /// Decides one frame: admitted iff it is the first frame or its relative
    /// arrival time has reached the scheduled target. On admission the
    /// target advances by exactly one period from its prior value.
    pub fn accept(&mut self, arrival: i64) -> (admitted: bool)
        requires
            old(self).wf(),
            0 <= arrival <= MAX_MEDIA_TIME,
        ensures
            final(self).wf(),
            final(self).period == old(self).period,
            final(self).started,
            admitted == pacer_admits(
                old(self).period as int,
                old(self).started,
                old(self).next_target as int,
                arrival as int,
            ),
            final(self).next_target as int == if !old(self).started {
                arrival + old(self).period
            } else if admitted {
                old(self).next_target + old(self).period
            } else {
                old(self).next_target as int
            },
            // one exec step matches one step of the admitted-times model
            forall|rest: Seq<int>|
                admitted_after(
                    old(self).period as int,
                    old(self).started,
                    old(self).next_target as int,
                    seq![arrival as int] + rest,
                ) == if admitted {
                    seq![arrival as int] + admitted_after(
                        final(self).period as int,
                        true,
                        final(self).next_target as int,
                        rest,
                    )
                } else {
                    admitted_after(
                        final(self).period as int,
                        final(self).started,
                        final(self).next_target as int,
                        rest,
                    )
                },
    {
        proof {
            assert forall|rest: Seq<int>| (seq![arrival as int] + rest).drop_first() =~= rest by {}
        }
        if !self.started {
            self.started = true;
            self.next_target = arrival + self.period;
            true
        } else if arrival >= self.next_target {
            self.next_target = self.next_target + self.period;
            true
        } else {
            false
        }
    }
}

/// Runs a fresh pacer over a whole arrival feed and returns the admitted
/// relative timestamps: the executable form of [`admitted_times`], for
/// which the admission laws below are proved.
pub fn admitted_frames(frame_rate: u32, arrivals: &Vec<i64>) -> (r: Result<Vec<i64>, PacerError>)
    requires
        forall|i: int| 0 <= i < arrivals@.len() ==> 0 <= #[trigger] arrivals@[i] <= MAX_MEDIA_TIME,
    ensures
        match r {
            Ok(admitted) => {
                &&& 1 <= frame_rate <= MEDIA_UNITS_PER_SECOND
                &&& admitted@.map_values(|t: i64| t as int) == admitted_times(
                    (MEDIA_UNITS_PER_SECOND as int) / (frame_rate as int),
                    arrivals@.map_values(|t: i64| t as int),
                )
            },
            Err(PacerError::InvalidFrameRate) => frame_rate == 0 || frame_rate
                > MEDIA_UNITS_PER_SECOND,
        },
{
    let mut pacer = match FramePacer::new(frame_rate) {
        Ok(p) => p,
        Err(e) => {
            return Err(e);
        },
    };
    let ghost feed: Seq<int> = arrivals@.map_values(|t: i64| t as int);
    let mut admitted: Vec<i64> = Vec::new();
    let mut i: usize = 0;
    proof {
        assert(feed.skip(0) =~= feed);
    }
    while i < arrivals.len()
        invariant
            i <= arrivals@.len(),
            pacer.wf(),
            pacer.period == (MEDIA_UNITS_PER_SECOND as int) / (frame_rate as int),
            feed == arrivals@.map_values(|t: i64| t as int),
            forall|k: int| 0 <= k < arrivals@.len() ==> 0 <= #[trigger] arrivals@[k]
                <= MAX_MEDIA_TIME,
            admitted_times(pacer.period as int, feed) == admitted@.map_values(|t: i64| t as int)
                + admitted_after(
                pacer.period as int,
                pacer.started,
                pacer.next_target as int,
                feed.skip(i as int),
            ),
        decreases arrivals@.len() - i,
    {
        let arrival = arrivals[i];
        let ghost before: Seq<i64> = admitted@;
        proof {
            assert(feed.skip(i as int) =~= seq![arrival as int] + feed.skip(i as int + 1));
        }
        let took = pacer.accept(arrival);
        if took {
            admitted.push(arrival);
            proof {
                assert(admitted@.map_values(|t: i64| t as int) =~= before.map_values(
                    |t: i64| t as int,
                ).push(arrival as int));
                assert(before.map_values(|t: i64| t as int) + (seq![arrival as int]
                    + admitted_after(
                    pacer.period as int,
                    true,
                    pacer.next_target as int,
                    feed.skip(i as int + 1),
                )) =~= admitted@.map_values(|t: i64| t as int) + admitted_after(
                    pacer.period as int,
                    true,
                    pacer.next_target as int,
                    feed.skip(i as int + 1),
                ));
            }
        }
        i = i + 1;
    }
    proof {
        assert(feed.skip(feed.len() as int) =~= Seq::<int>::empty());
        assert(admitted_times(pacer.period as int, feed) =~= admitted@.map_values(
            |t: i64| t as int,
        ));
    }
    Ok(admitted)
}

/// Helper for the admission laws: once the pacer is running with slot
/// `next_target`, the `k`-th admitted frame is never earlier than
/// `next_target + k * period`.
proof fn lemma_admitted_after_never_early(period: int, next_target: int, arrivals: Seq<int>)
    requires
        1 <= period,
    ensures
        forall|k: int|
            0 <= k < admitted_after(period, true, next_target, arrivals).len()
                ==> #[trigger] admitted_after(period, true, next_target, arrivals)[k]
                >= next_target + k * period,
    decreases arrivals.len(),
{
    if arrivals.len() != 0 {
        let t: int = arrivals[0];
        let tail = arrivals.drop_first();
        if t >= next_target {
            lemma_admitted_after_never_early(period, next_target + period, tail);
            let rest = admitted_after(period, true, next_target + period, tail);
            let whole = admitted_after(period, true, next_target, arrivals);
            assert(whole =~= seq![t] + rest);
            assert forall|k: int| 0 <= k < whole.len() implies whole[k] >= next_target + k
                * period by {
                if k > 0 {
                    assert(rest[k - 1] >= (next_target + period) + (k - 1) * period);
                    assert((next_target + period) + (k - 1) * period == next_target + k * period)
                        by (nonlinear_arith);
                }
            }
        } else {
            lemma_admitted_after_never_early(period, next_target, tail);
            assert(admitted_after(period, true, next_target, arrivals) =~= admitted_after(
                period,
                true,
                next_target,
                tail,
            ));
        }
    }
}

/// The pacer never admits early: for every sequence of arrival times, the
/// `k`-th admitted frame lies at or after its fixed-rate slot,
/// `first admitted time + k * period`. In particular successive admitted
/// frames are, on schedule average, at least one period apart, and the
/// long-run admitted rate never exceeds the target rate.
pub proof fn lemma_pacer_never_early(period: int, arrivals: Seq<int>)
    requires
        1 <= period,
    ensures
        forall|k: int|
            0 <= k < admitted_times(period, arrivals).len() ==> #[trigger] admitted_times(
                period,
                arrivals,
            )[k] >= admitted_times(period, arrivals)[0] + k * period,
{
    if arrivals.len() != 0 {
        let t0: int = arrivals[0];
        let tail = arrivals.drop_first();
        let rest = admitted_after(period, true, t0 + period, tail);
        let whole = admitted_times(period, arrivals);
        assert(whole =~= seq![t0] + rest);
        lemma_admitted_after_never_early(period, t0 + period, tail);
        assert forall|k: int| 0 <= k < whole.len() implies #[trigger] whole[k] >= whole[0] + k
            * period by {
            if k > 0 {
                assert(rest[k - 1] >= (t0 + period) + (k - 1) * period);
                assert((t0 + period) + (k - 1) * period == t0 + k * period) by (nonlinear_arith);
            }
        }
    }
}

/// Helper for the rate law: admitted times never exceed the largest
/// arrival time offered.
proof fn lemma_admitted_after_within_bound(
    period: int,
    started: bool,
    next_target: int,
    arrivals: Seq<int>,
    bound: int,
)
    requires
        forall|i: int| 0 <= i < arrivals.len() ==> arrivals[i] <= bound,
    ensures
        forall|k: int|
            0 <= k < admitted_after(period, started, next_target, arrivals).len()
                ==> #[trigger] admitted_after(period, started, next_target, arrivals)[k] <= bound,
    decreases arrivals.len(),
{
    if arrivals.len() != 0 {
        let t: int = arrivals[0];
        let tail = arrivals.drop_first();
        assert(forall|i: int| 0 <= i < tail.len() ==> #[trigger] tail[i] == arrivals[i + 1]);
        if pacer_admits(period, started, next_target, t) {
            let next: int = if !started {
                t + period
            } else {
                next_target + period
            };
            lemma_admitted_after_within_bound(period, true, next, tail, bound);
            let rest = admitted_after(period, true, next, tail);
            assert(admitted_after(period, started, next_target, arrivals) =~= seq![t] + rest);
        } else {
            lemma_admitted_after_within_bound(period, started, next_target, tail, bound);
            assert(admitted_after(period, started, next_target, arrivals) =~= admitted_after(
                period,
                started,
                next_target,
                tail,
            ));
        }
    }
}

/// The long-run admitted rate never exceeds the target rate: out of any
/// feed whose arrival times stay within `span` of the first admitted
/// frame, at most `span / period + 1` frames are admitted.
pub proof fn lemma_pacer_rate_bound(period: int, arrivals: Seq<int>, span: int)
    requires
        1 <= period,
        0 <= span,
        forall|i: int|
            0 <= i < arrivals.len() ==> #[trigger] arrivals[i] <= admitted_times(
                period,
                arrivals,
            )[0] + span,
    ensures
        admitted_times(period, arrivals).len() <= span / period + 1,
{
    let admitted = admitted_times(period, arrivals);
    if admitted.len() != 0 {
        let first: int = admitted[0];
        lemma_pacer_never_early(period, arrivals);
        lemma_admitted_after_within_bound(period, false, 0, arrivals, first + span);
        let last_index: int = admitted.len() - 1;
        assert(admitted[last_index] >= first + last_index * period);
        assert(admitted[last_index] <= first + span);
        assert(last_index * period <= span);
        assert(last_index <= span / period) by (nonlinear_arith)
            requires
                1 <= period,
                0 <= last_index,
                last_index * period <= span,
        ;
    }
}

/// Helper for the monotonicity law: on a sorted suffix every admitted time
/// is an arrival at or after the suffix head, and admissions stay sorted.
proof fn lemma_admitted_after_sorted(
    period: int,
    started: bool,
    next_target: int,
    arrivals: Seq<int>,
)
    requires
        1 <= period,
        sorted_times(arrivals),
    ensures
        sorted_times(admitted_after(period, started, next_target, arrivals)),
        arrivals.len() > 0 ==> forall|k: int|
            0 <= k < admitted_after(period, started, next_target, arrivals).len()
                ==> #[trigger] admitted_after(period, started, next_target, arrivals)[k]
                >= arrivals[0],
    decreases arrivals.len(),
{
    if arrivals.len() != 0 {
        let t: int = arrivals[0];
        let tail = arrivals.drop_first();
        assert(sorted_times(tail)) by {
            assert forall|i: int, j: int| 0 <= i <= j < tail.len() implies tail[i] <= tail[j] by {
                assert(tail[i] == arrivals[i + 1]);
                assert(tail[j] == arrivals[j + 1]);
            }
        }
        if pacer_admits(period, started, next_target, t) {
            let next: int = if !started {
                t + period
            } else {
                next_target + period
            };
            lemma_admitted_after_sorted(period, true, next, tail);
            let rest = admitted_after(period, true, next, tail);
            let whole = admitted_after(period, started, next_target, arrivals);
            assert(whole =~= seq![t] + rest);
            assert forall|k: int| 0 <= k < whole.len() implies whole[k] >= t by {
                if k > 0 {
                    assert(rest[k - 1] >= tail[0]);
                }
            }
        } else {
            lemma_admitted_after_sorted(period, started, next_target, tail);
            assert(admitted_after(period, started, next_target, arrivals) =~= admitted_after(
                period,
                started,
                next_target,
                tail,
            ));
        }
    }
}

/// For arrivals in time order — what one monotonic hardware counter
/// produces — the admitted timestamps are non-decreasing.
pub proof fn lemma_pacer_monotone(period: int, arrivals: Seq<int>)
    requires
        1 <= period,
        sorted_times(arrivals),
    ensures
        sorted_times(admitted_times(period, arrivals)),
{
    lemma_admitted_after_sorted(period, false, 0, arrivals);
}

/// Helper for the gap law: when every remaining arrival is at least one
/// period after the one before, and the current slot is no later than the
/// next arrival, every remaining frame is admitted.
proof fn lemma_admitted_after_spaced(period: int, next_target: int, arrivals: Seq<int>)
    requires
        1 <= period,
        forall|i: int| 0 <= i < arrivals.len() - 1 ==> #[trigger] arrivals[i + 1] >= arrivals[i]
            + period,
        arrivals.len() > 0 ==> next_target <= arrivals[0],
    ensures
        admitted_after(period, true, next_target, arrivals) =~= arrivals,
    decreases arrivals.len(),
{
    if arrivals.len() != 0 {
        let t: int = arrivals[0];
        let tail = arrivals.drop_first();
        assert forall|i: int| 0 <= i < tail.len() - 1 implies #[trigger] tail[i + 1] >= tail[i]
            + period by {
            assert(tail[i] == arrivals[i + 1]);
            assert(tail[i + 1] == arrivals[i + 2]);
            assert(arrivals[i + 2] >= arrivals[i + 1] + period);
        }
        if tail.len() > 0 {
            assert(tail[0] == arrivals[1]);
            assert(arrivals[0int + 1] >= arrivals[0int] + period);
        }
        lemma_admitted_after_spaced(period, next_target + period, tail);
    }
}

/// When frames arrive no faster than the target rate — each arrival at
/// least one period after the previous one — every frame is admitted, so
/// successive admitted timestamps are at least one period apart.
pub proof fn lemma_pacer_gaps(period: int, arrivals: Seq<int>)
    requires
        1 <= period,
        forall|i: int| 0 <= i < arrivals.len() - 1 ==> #[trigger] arrivals[i + 1] >= arrivals[i]
            + period,
    ensures
        admitted_times(period, arrivals) =~= arrivals,
        forall|k: int|
            0 <= k < admitted_times(period, arrivals).len() - 1 ==> #[trigger] admitted_times(
                period,
                arrivals,
            )[k + 1] >= admitted_times(period, arrivals)[k] + period,
{
    if arrivals.len() != 0 {
        let t0: int = arrivals[0];
        let tail = arrivals.drop_first();
        assert forall|i: int| 0 <= i < tail.len() - 1 implies #[trigger] tail[i + 1] >= tail[i]
            + period by {
            assert(tail[i] == arrivals[i + 1]);
            assert(tail[i + 1] == arrivals[i + 2]);
            assert(arrivals[i + 2] >= arrivals[i + 1] + period);
        }
        if tail.len() > 0 {
            assert(tail[0] == arrivals[1]);
            assert(arrivals[0int + 1] >= arrivals[0int] + period);
        }
        lemma_admitted_after_spaced(period, t0 + period, tail);
        assert(admitted_times(period, arrivals) =~= seq![t0] + tail);
        assert(seq![t0] + tail =~= arrivals);
    }
}

} // verus!
