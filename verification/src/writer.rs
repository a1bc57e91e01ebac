//! Sample writer / muxer: buffers and writes encoded samples from both
//! tracks into the output container, in order, with drain-on-stop.
//!
//! The writer holds one always-ready video stream index and zero-or-one
//! audio stream index; when the audio capture failed to initialize it runs
//! video-only and silently discards any audio plumbing. Audio samples are
//! queued on a bounded channel in submission order; a full queue drops the
//! sample (non-fatal backpressure). Each video write first opportunistically
//! drains the queued audio — a best-effort interleave with no ordering
//! promise across tracks — and `stop` drains whatever is left before the
//! container is finalized.
//!
//! The container sink itself lives outside the library: every method
//! returns the ordered batch of [`WriteRecord`]s the caller must hand to
//! the sink, and the ghost write logs tie those batches to the contracts.

use std::collections::VecDeque;
use vstd::prelude::*;

verus! {

/// One encoded sample: timestamp and duration in 100 ns units plus the
/// encoded payload. It is owned by its transform driver until handed to
/// the sample writer, which relinquishes it once written.
pub struct EncodedSample {
    pub data: Vec<u8>,
    pub timestamp: i64,
    pub duration: i64,
}

/// One write the container sink must perform: a sample on a stream.
pub struct WriteRecord {
    pub stream_index: u32,
    pub sample: EncodedSample,
}

/// Result of offering an audio sample to the writer's bounded queue.
#[derive(Clone, Copy, Debug, PartialEq, Eq, Structural)]
pub enum AudioSubmit {
    /// The sample sits in the queue and will be written in order.
    Queued,
    /// The queue was full; the sample was dropped (non-fatal).
    QueueFull,
    /// The writer runs video-only; audio is silently discarded.
    NoAudioStream,
}

/// The muxer state for one recording session.
pub struct SampleWriter {
    /// `begin_writing` was called.
    pub started: bool,
    /// `stop` was called; nothing may be written afterwards.
    pub finalized: bool,
    /// Stream index of the video track, assigned at construction.
    pub video_stream_index: u32,
    /// Stream index of the audio track, or `None` for a video-only writer.
    pub audio_stream_index: Option<u32>,
    /// Bound of the audio queue.
    pub queue_capacity: usize,
    /// Audio samples waiting to be interleaved, oldest first.
    pub audio_queue: VecDeque<EncodedSample>,
    /// All audio samples accepted into the queue, in submission order.
    pub audio_accepted: Ghost<Seq<EncodedSample>>,
    /// All audio samples handed to the sink so far, in write order.
    pub audio_written: Ghost<Seq<EncodedSample>>,
    /// All video samples handed to the sink so far, in write order.
    pub video_written: Ghost<Seq<EncodedSample>>,
}

impl SampleWriter {
    /// The writer is well formed: what was accepted is exactly what was
    /// written followed by what still waits in the queue; the queue honours
    /// its bound; a video-only writer holds no audio; the two stream
    /// indices are distinct; a finalized writer holds nothing back.
    pub open spec fn wf(self) -> bool {
        &&& self.audio_written@ + self.audio_queue@ == self.audio_accepted@
        &&& self.audio_queue@.len() <= self.queue_capacity
        &&& match self.audio_stream_index {
            Some(i) => i != self.video_stream_index,
            None => self.audio_queue@.len() == 0 && self.audio_accepted@.len() == 0,
        }
        &&& self.finalized ==> self.audio_queue@.len() == 0
    }

    /// A writer whose container holds an audio track.
    pub open spec fn has_audio(self) -> bool {
        self.audio_stream_index is Some
    }

    /// Builds the writer. The video stream is always present and gets
    /// stream index 0; the audio stream exists only if requested and gets
    /// stream index 1; both are immutable afterwards.
    pub fn new(has_audio: bool, queue_capacity: usize) -> (w: SampleWriter)
        ensures
            w.wf(),
            !w.started,
            !w.finalized,
            w.video_stream_index == 0,
            w.audio_stream_index == if has_audio {
                Some(1u32)
            } else {
                None::<u32>
            },
            w.queue_capacity == queue_capacity,
            w.audio_accepted@ == Seq::<EncodedSample>::empty(),
            w.audio_written@ == Seq::<EncodedSample>::empty(),
            w.video_written@ == Seq::<EncodedSample>::empty(),
    {
        SampleWriter {
            started: false,
            finalized: false,
            video_stream_index: 0,
            audio_stream_index: if has_audio {
                Some(1u32)
            } else {
                None
            },
            queue_capacity,
            audio_queue: VecDeque::new(),
            audio_accepted: Ghost(Seq::empty()),
            audio_written: Ghost(Seq::empty()),
            video_written: Ghost(Seq::empty()),
        }
    }

    /// Marks the container ready to take samples.
    pub fn begin_writing(&mut self)
        requires
            !old(self).started,
            !old(self).finalized,
        ensures
            *final(self) == (SampleWriter { started: true, ..*old(self) }),
    {
        self.started = true;
    }

    /// Offers one encoded audio sample to the bounded queue. In submission
    /// order: the queue appends at the back and is drained from the front.
    /// A full queue drops the sample and the session continues; a
    /// video-only writer discards it silently.
    pub fn submit_audio(&mut self, s: EncodedSample) -> (r: AudioSubmit)
        requires
            old(self).wf(),
            !old(self).finalized,
        ensures
            final(self).wf(),
            !final(self).finalized,
            final(self).started == old(self).started,
            final(self).audio_stream_index == old(self).audio_stream_index,
            final(self).video_stream_index == old(self).video_stream_index,
            final(self).queue_capacity == old(self).queue_capacity,
            final(self).audio_written@ == old(self).audio_written@,
            final(self).video_written@ == old(self).video_written@,
            r == AudioSubmit::NoAudioStream <==> !old(self).has_audio(),
            r == AudioSubmit::QueueFull <==> old(self).has_audio() && old(
                self,
            ).audio_queue@.len() >= old(self).queue_capacity,
            if r == AudioSubmit::Queued {
                &&& final(self).audio_queue@ == old(self).audio_queue@.push(s)
                &&& final(self).audio_accepted@ == old(self).audio_accepted@.push(s)
            } else {
                &&& final(self).audio_queue@ == old(self).audio_queue@
                &&& final(self).audio_accepted@ == old(self).audio_accepted@
            },
    {
        if self.audio_stream_index.is_none() {
            return AudioSubmit::NoAudioStream;
        }
        if self.audio_queue.len() >= self.queue_capacity {
            return AudioSubmit::QueueFull;
        }
        self.audio_queue.push_back(s);
        proof {
            self.audio_accepted@ = self.audio_accepted@.push(s);
        }
        AudioSubmit::Queued
    }

    /// Drains the queued audio samples and returns them as writes for the
    /// sink, oldest first. Called before each video write and before
    /// finalization.
    pub fn write_pending_audio_samples(&mut self) -> (batch: Vec<WriteRecord>)
        requires
            old(self).wf(),
            old(self).started,
            !old(self).finalized,
        ensures
            final(self).wf(),
            final(self).started,
            !final(self).finalized,
            final(self).audio_stream_index == old(self).audio_stream_index,
            final(self).video_stream_index == old(self).video_stream_index,
            final(self).queue_capacity == old(self).queue_capacity,
            final(self).audio_queue@.len() == 0,
            final(self).audio_accepted@ == old(self).audio_accepted@,
            final(self).video_written@ == old(self).video_written@,
            final(self).audio_written@ == old(self).audio_written@ + old(self).audio_queue@,
            batch@.len() == old(self).audio_queue@.len(),
            forall|k: int|
                0 <= k < batch@.len() ==> #[trigger] batch@[k].sample == old(
                    self,
                ).audio_queue@[k] && batch@[k].stream_index == old(
                    self,
                ).audio_stream_index.unwrap(),
    {
        let mut batch: Vec<WriteRecord> = Vec::new();
        let ghost queued: Seq<EncodedSample> = self.audio_queue@;
        while self.audio_queue.len() > 0
            invariant
                self.wf(),
                self.started,
                !self.finalized,
                self.audio_stream_index == old(self).audio_stream_index,
                self.video_stream_index == old(self).video_stream_index,
                self.queue_capacity == old(self).queue_capacity,
                self.audio_accepted@ == old(self).audio_accepted@,
                self.video_written@ == old(self).video_written@,
                queued == old(self).audio_queue@,
                batch@.len() + self.audio_queue@.len() == queued.len(),
                self.audio_queue@ == queued.subrange(batch@.len() as int, queued.len() as int),
                self.audio_written@ == old(self).audio_written@ + queued.subrange(
                    0,
                    batch@.len() as int,
                ),
                forall|k: int|
                    0 <= k < batch@.len() ==> #[trigger] batch@[k].sample == queued[k]
                        && batch@[k].stream_index == old(self).audio_stream_index.unwrap(),
            decreases self.audio_queue@.len(),
        {
            let ghost b: int = batch@.len() as int;
            let ghost n: int = queued.len() as int;
            let ghost aw_entry: Seq<EncodedSample> = self.audio_written@;
            proof {
                assert(aw_entry + self.audio_queue@ == self.audio_accepted@);
                assert(aw_entry + queued.subrange(b, n) =~= old(self).audio_written@
                    + queued.subrange(0, b) + queued.subrange(b, n));
                assert(old(self).audio_written@ + queued.subrange(0, b) + queued.subrange(b, n)
                    =~= old(self).audio_written@ + queued);
            }
            let next = self.audio_queue.pop_front();
            match next {
                Some(sample) => {
                    // only an audio-bearing writer ever holds queued samples
                    let index = match self.audio_stream_index {
                        Some(i) => i,
                        None => 0,
                    };
                    proof {
                        assert(sample == queued[b]);
                        assert(self.audio_queue@ =~= queued.subrange(b + 1, n));
                        self.audio_written@ = self.audio_written@.push(sample);
                        assert(self.audio_written@ =~= old(self).audio_written@ + queued.subrange(
                            0,
                            b + 1,
                        ));
                        assert(self.audio_written@ + self.audio_queue@ =~= old(
                            self,
                        ).audio_written@ + queued);
                        assert(old(self).audio_written@ + queued == self.audio_accepted@);
                    }
                    batch.push(WriteRecord { stream_index: index, sample });
                },
                None => {
                    // the loop guard saw a non-empty queue
                },
            }
        }
        proof {
            assert(queued.subrange(0, queued.len() as int) =~= queued);
        }
        batch
    }

    /// Writes one encoded video sample: first drains any queued audio
    /// (best-effort interleave), then appends the video sample itself. The
    /// returned batch is what the sink must write, in that order.
    pub fn write_video_sample(&mut self, s: EncodedSample) -> (batch: Vec<WriteRecord>)
        requires
            old(self).wf(),
            old(self).started,
            !old(self).finalized,
        ensures
            final(self).wf(),
            final(self).started,
            !final(self).finalized,
            final(self).audio_stream_index == old(self).audio_stream_index,
            final(self).video_stream_index == old(self).video_stream_index,
            final(self).queue_capacity == old(self).queue_capacity,
            final(self).audio_queue@.len() == 0,
            final(self).audio_accepted@ == old(self).audio_accepted@,
            final(self).audio_written@ == old(self).audio_written@ + old(self).audio_queue@,
            final(self).video_written@ == old(self).video_written@.push(s),
            batch@.len() == old(self).audio_queue@.len() + 1,
            forall|k: int|
                0 <= k < batch@.len() - 1 ==> #[trigger] batch@[k].sample == old(
                    self,
                ).audio_queue@[k] && batch@[k].stream_index == old(
                    self,
                ).audio_stream_index.unwrap(),
            batch@.last().sample == s,
            batch@.last().stream_index == old(self).video_stream_index,
    {
        let mut batch = self.write_pending_audio_samples();
        let index = self.video_stream_index;
        proof {
            self.video_written@ = self.video_written@.push(s);
        }
        batch.push(WriteRecord { stream_index: index, sample: s });
        batch
    }

    /// Stops the writer: drains all remaining queued audio samples, then
    /// marks the container finalized. The returned batch must be written
    /// before the sink's own finalize call; a finalize failure is the
    /// caller's to report, and already-written samples are not rolled back.
    pub fn stop(&mut self) -> (batch: Vec<WriteRecord>)
        requires
            old(self).wf(),
            old(self).started,
            !old(self).finalized,
        ensures
            final(self).wf(),
            final(self).started,
            final(self).finalized,
            final(self).audio_stream_index == old(self).audio_stream_index,
            final(self).video_stream_index == old(self).video_stream_index,
            final(self).audio_queue@.len() == 0,
            final(self).audio_accepted@ == old(self).audio_accepted@,
            final(self).video_written@ == old(self).video_written@,
            final(self).audio_written@ == old(self).audio_written@ + old(self).audio_queue@,
            batch@.len() == old(self).audio_queue@.len(),
            forall|k: int|
                0 <= k < batch@.len() ==> #[trigger] batch@[k].sample == old(
                    self,
                ).audio_queue@[k] && batch@[k].stream_index == old(
                    self,
                ).audio_stream_index.unwrap(),
    {
        let batch = self.write_pending_audio_samples();
        self.finalized = true;
        batch
    }
}

/// The sample writer preserves submission order within the audio track:
/// at every point, the audio samples already handed to the sink are
/// exactly the first accepted samples, in acceptance order. So for any
/// two audio samples submitted A then B, A is written before B.
pub proof fn lemma_audio_write_order(w: SampleWriter)
    requires
        w.wf(),
    ensures
        w.audio_written@ =~= w.audio_accepted@.take(w.audio_written@.len() as int),
{
    assert(w.audio_accepted@ =~= w.audio_written@ + w.audio_queue@);
}

} // verus!
