//! Clock anchor: converts hardware monotonic counter readings into a shared
//! 100 ns media-time base, relative to the session start.
//!
//! One counter reading is captured at session start (the anchor), together
//! with the counter's tick frequency; every timestamp of the session is
//! `to_media_time(t) - to_media_time(anchor)`, clamped to zero. Both tracks
//! use one anchor so that video and audio timestamps are directly comparable.

use vstd::prelude::*;

verus! {

use vstd::arithmetic::mul::lemma_mul_inequality;
use vstd::arithmetic::div_mod::lemma_div_is_ordered;

/// Number of 100 ns media-time units in one second.
pub const MEDIA_UNITS_PER_SECOND: i64 = 10_000_000;

/// Media time (100 ns units) of a raw counter reading `t` taken with a
/// counter of `frequency` ticks per second.
pub open spec fn media_time_of(t: int, frequency: int) -> int {
    t * (MEDIA_UNITS_PER_SECOND as int) / frequency
}

/// Session-relative media time of a counter reading `t`: the media time
/// elapsed since the anchor reading, clamped to zero.
pub open spec fn relative_time_of(t: int, anchor: int, frequency: int) -> int {
    let d = media_time_of(t, frequency) - media_time_of(anchor, frequency);
    if d < 0 {
        0
    } else {
        d
    }
}

/// Why a clock anchor could not be built.
#[derive(Clone, Copy, Debug, PartialEq, Eq, Structural)]
pub enum ClockError {
    /// The frequency query returned zero or a negative value; this is a
    /// fatal configuration error.
    InvalidFrequency,
    /// The anchor reading's media time does not fit the 100 ns time domain.
    CounterOutOfRange,
}

/// A hardware-counter reading captured once at session start, plus the
/// counter's tick frequency, read once and cached.
#[derive(Clone, Copy, Debug, PartialEq, Eq, Structural)]
pub struct ClockAnchor {
    pub anchor: i64,
    pub frequency: i64,
    pub anchor_media_time: i64,
}

impl ClockAnchor {
    /// The anchor is well formed: the frequency is positive, the anchor
    /// reading is non-negative, and its media time was cached exactly.
    pub open spec fn wf(self) -> bool {
        &&& 1 <= self.frequency
        &&& 0 <= self.anchor
        &&& self.anchor_media_time == media_time_of(self.anchor as int, self.frequency as int)
        &&& media_time_of(self.anchor as int, self.frequency as int) <= i64::MAX
    }

    pub open spec fn spec_anchor(self) -> int {
        self.anchor as int
    }

    pub open spec fn spec_frequency(self) -> int {
        self.frequency as int
    }

    /// Builds the session anchor from one counter reading and the counter
    /// frequency. A zero or negative frequency is rejected as a fatal
    /// configuration error.
    pub fn new(anchor: i64, frequency: i64) -> (r: Result<ClockAnchor, ClockError>)
        requires
            0 <= anchor,
        ensures
            match r {
                Ok(c) => {
                    &&& c.wf()
                    &&& c.spec_anchor() == anchor
                    &&& c.spec_frequency() == frequency
                    &&& 1 <= frequency
                },
                Err(ClockError::InvalidFrequency) => frequency <= 0,
                Err(ClockError::CounterOutOfRange) => {
                    &&& 1 <= frequency
                    &&& media_time_of(anchor as int, frequency as int) > i64::MAX
                },
            },
    {
        if frequency <= 0 {
            return Err(ClockError::InvalidFrequency);
        }
        proof {
            lemma_mul_inequality(anchor as int, i64::MAX as int, MEDIA_UNITS_PER_SECOND as int);
        }
        let wide: u128 = (anchor as u128) * (MEDIA_UNITS_PER_SECOND as u128);
        let media: u128 = wide / (frequency as u128);
        if media > i64::MAX as u128 {
            return Err(ClockError::CounterOutOfRange);
        }
        Ok(ClockAnchor { anchor, frequency, anchor_media_time: media as i64 })
    }

    /// Media time (100 ns units) of a raw counter reading, using the cached
    /// frequency.
    pub fn to_media_time(&self, t: i64) -> (r: i64)
        requires
            self.wf(),
            0 <= t,
            media_time_of(t as int, self.spec_frequency()) <= i64::MAX,
        ensures
            r == media_time_of(t as int, self.spec_frequency()),
            0 <= r,
    {
        proof {
            lemma_mul_inequality(t as int, i64::MAX as int, MEDIA_UNITS_PER_SECOND as int);
        }
        let wide: u128 = (t as u128) * (MEDIA_UNITS_PER_SECOND as u128);
        let media: u128 = wide / (self.frequency as u128);
        media as i64
    }

    /// Session-relative media time of a raw counter reading: media time
    /// since the anchor, clamped to zero.
    pub fn relative(&self, t: i64) -> (r: i64)
        requires
            self.wf(),
            0 <= t,
            media_time_of(t as int, self.spec_frequency()) <= i64::MAX,
        ensures
            r == relative_time_of(t as int, self.spec_anchor(), self.spec_frequency()),
            0 <= r,
    {
        let media = self.to_media_time(t);
        if media >= self.anchor_media_time {
            media - self.anchor_media_time
        } else {
            0
        }
    }
}

/// Relative time is monotonic: a later (or equal) counter reading never
/// yields an earlier session-relative timestamp.
pub proof fn lemma_relative_monotone(t1: int, t2: int, anchor: int, frequency: int)
    requires
        1 <= frequency,
        t1 <= t2,
    ensures
        relative_time_of(t1, anchor, frequency) <= relative_time_of(t2, anchor, frequency),
{
    lemma_mul_inequality(t1, t2, MEDIA_UNITS_PER_SECOND as int);
    lemma_div_is_ordered(
        t1 * (MEDIA_UNITS_PER_SECOND as int),
        t2 * (MEDIA_UNITS_PER_SECOND as int),
        frequency,
    );
}

/// The anchor reading itself maps to relative time zero.
pub proof fn lemma_relative_of_anchor_is_zero(anchor: int, frequency: int)
    requires
        1 <= frequency,
    ensures
        relative_time_of(anchor, anchor, frequency) == 0,
{
}

} // verus!
