//! Consumer side of the system-audio capture: the capture thread pushes
//! raw sample values into a bounded single-producer single-consumer ring
//! buffer, and the encoding side polls them out in order.
//!
//! The ring buffer is ringbuf's heap-allocated SPSC queue. Sample values
//! travel as their 32-bit bit patterns; what the capture thread read from
//! the device it pushes bit-for-bit, and the consumer hands the same bits
//! on. Each half carries a log of the values it has moved, and the
//! wrappers state how one call extends that log; because the other half
//! runs concurrently on another thread, nothing more is promised about
//! when a push or pop succeeds.

use ringbuf::traits::{Consumer, Producer, Split};
use ringbuf::{HeapCons, HeapProd, HeapRb};
use vstd::prelude::*;

verus! {

/// One captured audio block: bytes, session-relative timestamp and
/// duration in 100 ns units, and the number of audio frames it covers.
#[derive(Clone, Debug)]
pub struct AudioSample {
    pub data: Vec<u8>,
    pub timestamp: i64,
    pub duration: i64,
    pub frames: u32,
}

/// Start/stop handle for the system-audio capture thread. Each control
/// method returns the signal to forward to the thread, or `None` when the
/// call was a no-op.
#[derive(Clone)]
pub struct AudioCaptureSession {
    pub running: bool,
}

impl AudioCaptureSession {
    /// A session that has not been started.
    pub fn new() -> (s: AudioCaptureSession)
        ensures
            !s.running,
    {
        AudioCaptureSession { running: false }
    }

    /// Starts the capture; on a session already running nothing is sent.
    #[allow(non_snake_case)]
    pub fn StartCapture(&mut self) -> (signal: Option<bool>)
        ensures
            final(self).running,
            signal == if old(self).running {
                None
            } else {
                Some(true)
            },
    {
        if !self.running {
            self.running = true;
            Some(true)
        } else {
            None
        }
    }

    /// Stops the capture; closing an already-stopped session is a no-op
    /// that still succeeds.
    #[allow(non_snake_case)]
    pub fn Close(&mut self) -> (signal: Option<bool>)
        ensures
            !final(self).running,
            signal == if old(self).running {
                Some(false)
            } else {
                None
            },
    {
        if self.running {
            self.running = false;
            Some(false)
        } else {
            None
        }
    }
}

/// Producer half of the sample ring; owned by the capture thread.
#[verifier::external_body]
pub struct SampleBitsProducer {
    inner: HeapProd<u32>,
}

/// Consumer half of the sample ring; owned by the encoding side.
#[verifier::external_body]
pub struct SampleBitsConsumer {
    inner: HeapCons<u32>,
}

/// The sample values this producer half has pushed into the ring, oldest
/// first.
pub uninterp spec fn ring_given(p: &SampleBitsProducer) -> Seq<u32>;

/// The sample values this consumer half has popped out of the ring,
/// oldest first.
pub uninterp spec fn ring_taken(c: &SampleBitsConsumer) -> Seq<u32>;

/// Relies on ringbuf's `HeapRb::new` and `Split::split`: a fresh bounded
/// SPSC ring buffer of the given capacity, handed out as its producer and
/// consumer halves; nothing has moved through it yet.
#[verifier::external_body]
pub fn sample_ring(capacity: usize) -> (r: (SampleBitsProducer, SampleBitsConsumer))
    requires
        1 <= capacity,
    ensures
        ring_given(&r.0) == Seq::<u32>::empty(),
        ring_taken(&r.1) == Seq::<u32>::empty(),
{
    let (p, c) = HeapRb::<u32>::new(capacity).split();
    (SampleBitsProducer { inner: p }, SampleBitsConsumer { inner: c })
}

impl SampleBitsProducer {
    /// Relies on ringbuf's `Producer::try_push`: the value is appended to
    /// the ring unless the buffer is full at that moment, in which case
    /// nothing changes. Whether space exists depends on the concurrent
    /// consumer, so both outcomes are possible on any call.
    #[verifier::external_body]
    pub fn try_push(&mut self, value: u32) -> (pushed: bool)
        ensures
            pushed ==> ring_given(final(self)) == ring_given(old(self)).push(value),
            !pushed ==> ring_given(final(self)) == ring_given(old(self)),
    {
        self.inner.try_push(value).is_ok()
    }
}

impl SampleBitsConsumer {
    /// Relies on ringbuf's `Consumer::try_pop`: removes and returns the
    /// eldest value, or returns nothing if the ring is empty at that
    /// moment. Whether a value waits depends on the concurrent producer,
    /// so both outcomes are possible on any call.
    #[verifier::external_body]
    pub fn try_pop(&mut self) -> (r: Option<u32>)
        ensures
            match r {
                Some(v) => ring_taken(final(self)) == ring_taken(old(self)).push(v),
                None => ring_taken(final(self)) == ring_taken(old(self)),
            },
    {
        self.inner.try_pop()
    }
}

/// `a` is `b` with zero or more elements left out, in order (matched
/// greedily from the end).
pub open spec fn subsequence_of(a: Seq<u32>, b: Seq<u32>) -> bool
    decreases a.len() + b.len(),
{
    if a.len() == 0 {
        true
    } else if b.len() == 0 {
        false
    } else if a.last() == b.last() {
        subsequence_of(a.drop_last(), b.drop_last())
    } else {
        subsequence_of(a, b.drop_last())
    }
}

/// Dropping the last element of a subsequence keeps it a subsequence.
proof fn lemma_subsequence_shrink(a: Seq<u32>, b: Seq<u32>)
    requires
        a.len() > 0,
        subsequence_of(a, b),
    ensures
        subsequence_of(a.drop_last(), b),
    decreases a.len() + b.len(), 0int,
{
    if b.len() > 0 {
        if a.last() == b.last() {
            lemma_subsequence_extend(a.drop_last(), b.drop_last(), b.last());
            assert(b.drop_last().push(b.last()) =~= b);
        } else {
            lemma_subsequence_shrink(a, b.drop_last());
            lemma_subsequence_extend(a.drop_last(), b.drop_last(), b.last());
            assert(b.drop_last().push(b.last()) =~= b);
        }
    }
}

/// Extending the reference sequence keeps a subsequence a subsequence.
proof fn lemma_subsequence_extend(a: Seq<u32>, b: Seq<u32>, x: u32)
    requires
        subsequence_of(a, b),
    ensures
        subsequence_of(a, b.push(x)),
    decreases a.len() + b.len(), 1int,
{
    if a.len() > 0 {
        assert(b.push(x).last() == x);
        assert(b.push(x).drop_last() =~= b);
        if a.last() == x {
            lemma_subsequence_shrink(a, b);
        }
    }
}

/// Extending both sequences by the same element keeps the relation.
proof fn lemma_subsequence_extend_both(a: Seq<u32>, b: Seq<u32>, x: u32)
    requires
        subsequence_of(a, b),
    ensures
        subsequence_of(a.push(x), b.push(x)),
{
    assert(a.push(x).last() == b.push(x).last());
    assert(a.push(x).drop_last() =~= a);
    assert(b.push(x).drop_last() =~= b);
}

/// Pushes one captured block of sample values into the ring, in order.
/// A value that finds the ring full is dropped — the capture thread never
/// blocks — and the rest are still offered; the count of values that got
/// in is returned, and what the ring received is exactly some
/// subsequence of the block, in order.
pub fn push_captured_samples(producer: &mut SampleBitsProducer, values: &Vec<u32>) -> (pushed:
    usize)
    ensures
        pushed <= values@.len(),
        ring_given(&*final(producer)).len() == ring_given(&*old(producer)).len() + pushed,
        subsequence_of(
            ring_given(&*final(producer)).skip(ring_given(&*old(producer)).len() as int),
            values@,
        ),
{
    let ghost base: int = ring_given(&*producer).len() as int;
    let mut pushed: usize = 0;
    let mut i: usize = 0;
    proof {
        assert(ring_given(&*producer).skip(base) =~= Seq::<u32>::empty());
    }
    while i < values.len()
        invariant
            i <= values@.len(),
            pushed <= i,
            base == ring_given(&*old(producer)).len(),
            ring_given(&*producer).len() == base + pushed,
            subsequence_of(ring_given(&*producer).skip(base), values@.take(i as int)),
        decreases values@.len() - i,
    {
        let ghost before: Seq<u32> = ring_given(&*producer).skip(base);
        let value = values[i];
        let ok = producer.try_push(value);
        proof {
            if ok {
                assert(ring_given(&*producer).skip(base) =~= before.push(value));
                lemma_subsequence_extend_both(before, values@.take(i as int), value);
                assert(values@.take(i as int).push(value) =~= values@.take(i as int + 1));
            } else {
                lemma_subsequence_extend(before, values@.take(i as int), value);
                assert(values@.take(i as int).push(value) =~= values@.take(i as int + 1));
            }
        }
        if ok {
            pushed = pushed + 1;
        }
        i = i + 1;
    }
    proof {
        assert(values@.take(values@.len() as int) =~= values@);
    }
    pushed
}

/// The encoding-side view of the system-audio capture: polls captured
/// sample values out of the ring and tracks how many samples have been
/// consumed, which yields the media timestamps of the feed.
pub struct CaptureAudioGenerator {
    pub consumer: SampleBitsConsumer,
    pub session: AudioCaptureSession,
    pub sample_rate: u32,
    pub channels: u16,
    pub bits_per_sample: u16,
    pub initialized: bool,
    pub sample_position: u64,
}

impl CaptureAudioGenerator {
    /// Builds a fresh capture ring of the given capacity and wraps its
    /// consumer half; the producer half goes to the capture thread.
    pub fn create(capacity: usize) -> (r: (SampleBitsProducer, CaptureAudioGenerator))
        requires
            1 <= capacity,
        ensures
            ring_given(&r.0) == Seq::<u32>::empty(),
            ring_taken(&r.1.consumer) == Seq::<u32>::empty(),
            !r.1.session.running,
            !r.1.initialized,
            r.1.sample_position == 0,
    {
        let (producer, consumer) = sample_ring(capacity);
        (producer, CaptureAudioGenerator::new(consumer))
    }

    /// Wraps the consumer half of a fresh capture ring, with the default
    /// format assumed until the capture thread reports the device's real
    /// one: 48 kHz, stereo, 32-bit samples.
    pub fn new(consumer: SampleBitsConsumer) -> (g: CaptureAudioGenerator)
        ensures
            g.consumer == consumer,
            !g.session.running,
            g.sample_rate == 48000,
            g.channels == 2,
            g.bits_per_sample == 32,
            !g.initialized,
            g.sample_position == 0,
    {
        CaptureAudioGenerator {
            consumer,
            session: AudioCaptureSession::new(),
            sample_rate: 48000,
            channels: 2,
            bits_per_sample: 32,
            initialized: false,
            sample_position: 0,
        }
    }

    /// Records the format the capture thread negotiated with the device;
    /// the generator counts as initialized from then on.
    pub fn set_format(&mut self, sample_rate: u32, channels: u16, bits_per_sample: u16)
        ensures
            *final(self) == (CaptureAudioGenerator {
                sample_rate,
                channels,
                bits_per_sample,
                initialized: true,
                ..*old(self)
            }),
    {
        self.sample_rate = sample_rate;
        self.channels = channels;
        self.bits_per_sample = bits_per_sample;
        self.initialized = true;
    }

    /// Polls up to `max_samples` captured sample values out of the ring,
    /// in capture order, and advances the consumed-sample position by
    /// exactly the number returned.
    pub fn try_get_audio_samples(&mut self, max_samples: usize) -> (samples: Vec<u32>)
        requires
            old(self).sample_position + max_samples <= u64::MAX,
        ensures
            samples@.len() <= max_samples,
            ring_taken(&final(self).consumer) == ring_taken(&old(self).consumer) + samples@,
            final(self).sample_position == old(self).sample_position + samples@.len(),
            final(self).session == old(self).session,
            final(self).sample_rate == old(self).sample_rate,
            final(self).channels == old(self).channels,
            final(self).bits_per_sample == old(self).bits_per_sample,
            final(self).initialized == old(self).initialized,
    {
        let mut samples: Vec<u32> = Vec::new();
        while samples.len() < max_samples
            invariant
                samples@.len() <= max_samples,
                ring_taken(&self.consumer) == ring_taken(&old(self).consumer) + samples@,
                self.sample_position == old(self).sample_position,
                self.session == old(self).session,
                self.sample_rate == old(self).sample_rate,
                self.channels == old(self).channels,
                self.bits_per_sample == old(self).bits_per_sample,
                self.initialized == old(self).initialized,
            decreases max_samples - samples@.len(),
        {
            let next = self.consumer.try_pop();
            match next {
                Some(value) => {
                    samples.push(value);
                },
                None => {
                    break ;
                },
            }
        }
        self.sample_position = self.sample_position + (samples.len() as u64);
        samples
    }

    /// The number of sample values consumed so far; the basis of the
    /// feed's media timestamps.
    pub fn get_sample_position(&self) -> (r: u64)
        ensures
            r == self.sample_position,
    {
        self.sample_position
    }

    /// Media time, in 100 ns units, of the current consumed-sample
    /// position at this generator's sample rate.
    pub fn get_sample_time(&self) -> (r: i64)
        requires
            1 <= self.sample_rate,
            (self.sample_position as int) * (crate::clock::MEDIA_UNITS_PER_SECOND as int) / (
            self.sample_rate as int) <= i64::MAX,
        ensures
            r == (self.sample_position as int) * (crate::clock::MEDIA_UNITS_PER_SECOND as int) / (
            self.sample_rate as int),
            0 <= r,
    {
        proof {
            vstd::arithmetic::mul::lemma_mul_inequality(
                self.sample_position as int,
                u64::MAX as int,
                crate::clock::MEDIA_UNITS_PER_SECOND as int,
            );
        }
        let wide: u128 = (self.sample_position as u128) * (
        crate::clock::MEDIA_UNITS_PER_SECOND as u128);
        (wide / (self.sample_rate as u128)) as i64
    }

    /// Duration, in 100 ns units, of `sample_count` samples at this
    /// generator's sample rate.
    pub fn calculate_duration(&self, sample_count: usize) -> (r: i64)
        requires
            1 <= self.sample_rate,
            (sample_count as int) * (crate::clock::MEDIA_UNITS_PER_SECOND as int) / (
            self.sample_rate as int) <= i64::MAX,
        ensures
            r == (sample_count as int) * (crate::clock::MEDIA_UNITS_PER_SECOND as int) / (
            self.sample_rate as int),
            0 <= r,
    {
        proof {
            vstd::arithmetic::mul::lemma_mul_inequality(
                sample_count as int,
                usize::MAX as int,
                crate::clock::MEDIA_UNITS_PER_SECOND as int,
            );
        }
        let wide: u128 = (sample_count as u128) * (crate::clock::MEDIA_UNITS_PER_SECOND as u128);
        (wide / (self.sample_rate as u128)) as i64
    }

    /// Stops the capture through the session handle; the returned signal,
    /// if any, must be forwarded to the capture thread.
    pub fn stop_capture(&mut self) -> (signal: Option<bool>)
        ensures
            !final(self).session.running,
            signal == if old(self).session.running {
                Some(false)
            } else {
                None
            },
            final(self).consumer == old(self).consumer,
            final(self).sample_position == old(self).sample_position,
    {
        self.session.Close()
    }

    /// Whether the capture thread has reported the device format yet.
    pub fn is_initialized(&self) -> (r: bool)
        ensures
            r == self.initialized,
    {
        self.initialized
    }

    pub fn get_sample_rate(&self) -> (r: u32)
        ensures
            r == self.sample_rate,
    {
        self.sample_rate
    }

    pub fn get_channels(&self) -> (r: u16)
        ensures
            r == self.channels,
    {
        self.channels
    }

    pub fn get_bits_per_sample(&self) -> (r: u16)
        ensures
            r == self.bits_per_sample,
    {
        self.bits_per_sample
    }
}

} // verus!
