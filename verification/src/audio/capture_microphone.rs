//! Consumer side of the microphone capture: the capture thread stamps
//! whole sample blocks relative to the session-start counter reading and
//! pushes them into a bounded SPSC ring; the encoding side polls them out
//! in order.

use ringbuf::traits::{Consumer, Producer, Split};
use ringbuf::{HeapCons, HeapProd, HeapRb};
use vstd::prelude::*;

verus! {

use crate::audio::capture_audio::AudioSample;
use crate::clock::{media_time_of, MEDIA_UNITS_PER_SECOND};
use vstd::arithmetic::mul::lemma_mul_inequality;

/// Start/stop handle for the microphone capture thread. Each control
/// method returns the signal to forward to the thread, or `None` when the
/// call was a no-op.
#[derive(Clone)]
pub struct MicrophoneCaptureSession {
    pub running: bool,
}

impl MicrophoneCaptureSession {
    /// A session that has not been started.
    pub fn new() -> (s: MicrophoneCaptureSession)
        ensures
            !s.running,
    {
        MicrophoneCaptureSession { running: false }
    }

    /// Starts the capture; on a session already running nothing is sent.
    #[allow(non_snake_case)]
    pub fn StartCapture(&mut self) -> (signal: Option<bool>)
        ensures
            final(self).running,
            signal == if old(self).running {
                None
            } else {
                Some(true)
            },
    {
        if !self.running {
            self.running = true;
            Some(true)
        } else {
            None
        }
    }

    /// Stops the capture; stopping an already-stopped session is a no-op
    /// that still succeeds.
    #[allow(non_snake_case)]
    pub fn StopCapture(&mut self) -> (signal: Option<bool>)
        ensures
            !final(self).running,
            signal == if old(self).running {
                Some(false)
            } else {
                None
            },
    {
        if self.running {
            self.running = false;
            Some(false)
        } else {
            None
        }
    }
}

/// Producer half of the microphone sample ring; owned by the capture
/// thread.
#[verifier::external_body]
pub struct MicSampleProducer {
    inner: HeapProd<AudioSample>,
}

/// Consumer half of the microphone sample ring; owned by the encoding
/// side.
#[verifier::external_body]
pub struct MicSampleConsumer {
    inner: HeapCons<AudioSample>,
}

/// The sample blocks this producer half has pushed into the ring, oldest
/// first.
pub uninterp spec fn mic_ring_given(p: &MicSampleProducer) -> Seq<AudioSample>;

/// The sample blocks this consumer half has popped out of the ring,
/// oldest first.
pub uninterp spec fn mic_ring_taken(c: &MicSampleConsumer) -> Seq<AudioSample>;

/// Relies on ringbuf's `HeapRb::new` and `Split::split`: a fresh bounded
/// SPSC ring buffer of the given capacity, handed out as its producer and
/// consumer halves; nothing has moved through it yet.
#[verifier::external_body]
pub fn mic_sample_ring(capacity: usize) -> (r: (MicSampleProducer, MicSampleConsumer))
    requires
        1 <= capacity,
    ensures
        mic_ring_given(&r.0) == Seq::<AudioSample>::empty(),
        mic_ring_taken(&r.1) == Seq::<AudioSample>::empty(),
{
    let (p, c) = HeapRb::<AudioSample>::new(capacity).split();
    (MicSampleProducer { inner: p }, MicSampleConsumer { inner: c })
}

impl MicSampleProducer {
    /// Relies on ringbuf's `Producer::try_push`: the block is appended to
    /// the ring unless the buffer is full at that moment, in which case it
    /// is dropped and nothing changes. Whether space exists depends on the
    /// concurrent consumer, so both outcomes are possible on any call.
    #[verifier::external_body]
    pub fn try_push(&mut self, value: AudioSample) -> (pushed: bool)
        ensures
            pushed ==> mic_ring_given(final(self)) == mic_ring_given(old(self)).push(value),
            !pushed ==> mic_ring_given(final(self)) == mic_ring_given(old(self)),
    {
        self.inner.try_push(value).is_ok()
    }
}

impl MicSampleConsumer {
    /// Relies on ringbuf's `Consumer::try_pop`: removes and returns the
    /// eldest block, or returns nothing if the ring is empty at that
    /// moment. Whether a block waits depends on the concurrent producer,
    /// so both outcomes are possible on any call.
    #[verifier::external_body]
    pub fn try_pop(&mut self) -> (r: Option<AudioSample>)
        ensures
            match r {
                Some(v) => mic_ring_taken(final(self)) == mic_ring_taken(old(self)).push(v),
                None => mic_ring_taken(final(self)) == mic_ring_taken(old(self)),
            },
    {
        self.inner.try_pop()
    }
}

/// Assembles one captured microphone block and offers it to the ring.
/// When the ring is full the block is dropped — the capture thread never
/// blocks — and the return value says whether it got in.
pub fn capture_microphone_block(
    producer: &mut MicSampleProducer,
    data: Vec<u8>,
    timestamp: i64,
    duration: i64,
    frames: u32,
) -> (pushed: bool)
    ensures
        pushed ==> mic_ring_given(&*final(producer)) == mic_ring_given(&*old(producer)).push(
            AudioSample { data, timestamp, duration, frames },
        ),
        !pushed ==> mic_ring_given(&*final(producer)) == mic_ring_given(&*old(producer)),
{
    let block = AudioSample { data, timestamp, duration, frames };
    producer.try_push(block)
}

/// The encoding-side view of the microphone capture: polls stamped sample
/// blocks out of the ring and converts counter readings into
/// session-relative media time with the cached session anchor.
pub struct CaptureMicrophoneGenerator {
    pub consumer: MicSampleConsumer,
    pub session: MicrophoneCaptureSession,
    pub sample_rate: u32,
    pub channels: u16,
    pub bits_per_sample: u16,
    pub initialized: bool,
    pub start_qpc: i64,
    pub qpf_frequency: i64,
}

impl CaptureMicrophoneGenerator {
    /// Builds a fresh microphone ring of the given capacity and wraps its
    /// consumer half; the producer half goes to the capture thread.
    pub fn create(capacity: usize, start_qpc: i64, qpf_frequency: i64) -> (r: (
        MicSampleProducer,
        CaptureMicrophoneGenerator,
    ))
        requires
            1 <= capacity,
            0 <= start_qpc,
            1 <= qpf_frequency,
        ensures
            mic_ring_given(&r.0) == Seq::<AudioSample>::empty(),
            mic_ring_taken(&r.1.consumer) == Seq::<AudioSample>::empty(),
            !r.1.session.running,
            !r.1.initialized,
            r.1.start_qpc == start_qpc,
            r.1.qpf_frequency == qpf_frequency,
    {
        let (producer, consumer) = mic_sample_ring(capacity);
        (producer, CaptureMicrophoneGenerator::new(consumer, start_qpc, qpf_frequency))
    }

    /// Wraps the consumer half of a fresh microphone ring, anchored at the
    /// session-start counter reading, with the default format assumed
    /// until the capture thread reports the device's real one.
    pub fn new(consumer: MicSampleConsumer, start_qpc: i64, qpf_frequency: i64) -> (g:
        CaptureMicrophoneGenerator)
        requires
            0 <= start_qpc,
            1 <= qpf_frequency,
        ensures
            g.consumer == consumer,
            !g.session.running,
            g.sample_rate == 48000,
            g.channels == 2,
            g.bits_per_sample == 32,
            !g.initialized,
            g.start_qpc == start_qpc,
            g.qpf_frequency == qpf_frequency,
    {
        CaptureMicrophoneGenerator {
            consumer,
            session: MicrophoneCaptureSession::new(),
            sample_rate: 48000,
            channels: 2,
            bits_per_sample: 32,
            initialized: false,
            start_qpc,
            qpf_frequency,
        }
    }

    /// Records the format the capture thread negotiated with the device.
    pub fn set_format(&mut self, sample_rate: u32, channels: u16, bits_per_sample: u16)
        ensures
            *final(self) == (CaptureMicrophoneGenerator {
                sample_rate,
                channels,
                bits_per_sample,
                initialized: true,
                ..*old(self)
            }),
    {
        self.sample_rate = sample_rate;
        self.channels = channels;
        self.bits_per_sample = bits_per_sample;
        self.initialized = true;
    }

    /// Polls the eldest captured sample block, if one waits.
    pub fn try_get_audio_sample(&mut self) -> (r: Option<AudioSample>)
        ensures
            match r {
                Some(v) => mic_ring_taken(&final(self).consumer) == mic_ring_taken(
                    &old(self).consumer,
                ).push(v),
                None => mic_ring_taken(&final(self).consumer) == mic_ring_taken(
                    &old(self).consumer,
                ),
            },
            final(self).session == old(self).session,
            final(self).start_qpc == old(self).start_qpc,
            final(self).qpf_frequency == old(self).qpf_frequency,
    {
        self.consumer.try_pop()
    }

    /// Session-relative media time, in 100 ns units, of a counter reading
    /// taken at or after the session anchor.
    pub fn qpc_to_time(&self, qpc: i64) -> (r: i64)
        requires
            1 <= self.qpf_frequency,
            0 <= self.start_qpc <= qpc,
            media_time_of(qpc - self.start_qpc, self.qpf_frequency as int) <= i64::MAX,
        ensures
            r == media_time_of(qpc - self.start_qpc, self.qpf_frequency as int),
            0 <= r,
    {
        let elapsed: i64 = qpc - self.start_qpc;
        proof {
            lemma_mul_inequality(elapsed as int, i64::MAX as int, MEDIA_UNITS_PER_SECOND as int);
        }
        let wide: u128 = (elapsed as u128) * (MEDIA_UNITS_PER_SECOND as u128);
        (wide / (self.qpf_frequency as u128)) as i64
    }

    /// Stops the capture through the session handle; the returned signal,
    /// if any, must be forwarded to the capture thread.
    pub fn stop_capture(&mut self) -> (signal: Option<bool>)
        ensures
            !final(self).session.running,
            signal == if old(self).session.running {
                Some(false)
            } else {
                None
            },
            final(self).consumer == old(self).consumer,
    {
        self.session.StopCapture()
    }

    /// Whether the capture thread has reported the device format yet.
    pub fn is_initialized(&self) -> (r: bool)
        ensures
            r == self.initialized,
    {
        self.initialized
    }

    pub fn get_sample_rate(&self) -> (r: u32)
        ensures
            r == self.sample_rate,
    {
        self.sample_rate
    }

    pub fn get_channels(&self) -> (r: u16)
        ensures
            r == self.channels,
    {
        self.channels
    }

    pub fn get_bits_per_sample(&self) -> (r: u16)
        ensures
            r == self.bits_per_sample,
    {
        self.bits_per_sample
    }
}

} // verus!
