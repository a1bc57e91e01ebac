//! Session orchestrator: owns and sequences start and stop across the
//! clock anchor, the frame pacer, the two transform drivers and the sample
//! writer, and aggregates teardown errors.
//!
//! Start order: writer, then encoders, then captures — a consumer is
//! always ready before its producer begins emitting. Stop order is the
//! reverse: captures first, so no new raw samples enter the pipeline,
//! then the drivers (whose event loops drain their transforms), then the
//! writer, which drains the queued audio and finalizes the container.
//! Errors of the platform teardown steps are collected outside and folded
//! with [`ErrorCollector`]: the first error is the one reported, but every
//! later stage is still attempted.

use vstd::prelude::*;

verus! {

use crate::audio::AudioSource;
use crate::clock::ClockAnchor;
use crate::driver::{Driver, DriverState};
use crate::pacer::{FramePacer, PacerError};
use crate::video::encoding_session::FrameSize;
use crate::writer::{SampleWriter, WriteRecord};

/// Lifecycle of one recording session: created once, started once,
/// stopped once; not reusable.
#[derive(Clone, Copy, Debug, PartialEq, Eq, Structural)]
pub enum SessionState {
    Created,
    Started,
    Stopped,
}

/// What a recording session is asked to do.
pub struct SessionConfig {
    /// Requested frame size; rounded up to even dimensions.
    pub resolution: FrameSize,
    /// Video bit rate in bits per second.
    pub bit_rate: u32,
    /// Target video frame rate in frames per second.
    pub frame_rate: u32,
    /// Audio endpoint, or none for a video-only session.
    pub audio_source: AudioSource,
    /// Bound of the writer's audio queue.
    pub audio_queue_capacity: usize,
}

/// Why a session could not be created.
#[derive(Clone, Copy, Debug, PartialEq, Eq, Structural)]
pub enum SessionError {
    /// No positive frame period exists for the requested frame rate.
    InvalidFrameRate,
}

/// One recording session: the shared clock anchor, the video pacer, one
/// transform driver per track, the sample writer, and the capture flags.
pub struct RecordingSession {
    pub state: SessionState,
    /// Frame size after rounding to even dimensions.
    pub resolution: FrameSize,
    pub bit_rate: u32,
    pub clock: ClockAnchor,
    pub pacer: FramePacer,
    pub video_driver: Driver,
    /// Present exactly when the session records audio.
    pub audio_driver: Option<Driver>,
    pub writer: SampleWriter,
    pub video_capture_running: bool,
    pub audio_capture_running: bool,
}

impl RecordingSession {
    /// The orchestrator's invariant across its lifecycle: the components
    /// are well formed, the writer has an audio stream exactly when an
    /// audio driver exists, and each lifecycle state pins the components'
    /// progress.
    pub open spec fn inv(self) -> bool {
        &&& self.clock.wf()
        &&& self.pacer.wf()
        &&& self.writer.wf()
        &&& (self.writer.has_audio() <==> self.audio_driver is Some)
        &&& match self.state {
            SessionState::Created => {
                &&& !self.writer.started
                &&& !self.writer.finalized
                &&& self.video_driver.state == DriverState::Idle
                &&& match self.audio_driver {
                    Some(d) => d.state == DriverState::Idle,
                    None => true,
                }
                &&& !self.video_capture_running
                &&& !self.audio_capture_running
            },
            SessionState::Started => {
                &&& self.writer.started
                &&& !self.writer.finalized
                &&& self.video_driver.state != DriverState::Idle
                &&& match self.audio_driver {
                    Some(d) => d.state != DriverState::Idle,
                    None => true,
                }
            },
            SessionState::Stopped => {
                &&& self.writer.finalized
                &&& !self.video_capture_running
                &&& !self.audio_capture_running
            },
        }
    }

    /// Whether the session records an audio track.
    pub open spec fn has_audio(self) -> bool {
        self.writer.has_audio()
    }

    /// Builds a session: an even frame size, a pacer for the target rate,
    /// one driver per track, and a writer whose container holds an audio
    /// stream exactly when an audio source was chosen. Only a frame rate
    /// without a positive period is rejected.
    pub fn new(config: SessionConfig, clock: ClockAnchor) -> (r: Result<
        RecordingSession,
        SessionError,
    >)
        requires
            clock.wf(),
            0 <= config.resolution.width < i32::MAX,
            0 <= config.resolution.height < i32::MAX,
        ensures
            match r {
                Ok(s) => {
                    &&& s.inv()
                    &&& s.state == SessionState::Created
                    &&& s.clock == clock
                    &&& s.has_audio() <==> config.audio_source != AudioSource::NoAudio
                    &&& s.writer.audio_stream_index is None <==> config.audio_source
                        == AudioSource::NoAudio
                    &&& s.resolution.width % 2 == 0
                    &&& s.resolution.height % 2 == 0
                    &&& s.bit_rate == config.bit_rate
                    &&& s.pacer.period == (crate::clock::MEDIA_UNITS_PER_SECOND as int) / (
                    config.frame_rate as int)
                    &&& !s.pacer.started
                    &&& s.writer.queue_capacity == config.audio_queue_capacity
                    &&& s.writer.audio_accepted@ == Seq::<crate::writer::EncodedSample>::empty()
                    &&& s.writer.audio_written@ == Seq::<crate::writer::EncodedSample>::empty()
                    &&& s.writer.video_written@ == Seq::<crate::writer::EncodedSample>::empty()
                    &&& 1 <= config.frame_rate <= crate::clock::MEDIA_UNITS_PER_SECOND
                },
                Err(SessionError::InvalidFrameRate) => config.frame_rate == 0
                    || config.frame_rate > crate::clock::MEDIA_UNITS_PER_SECOND,
            },
    {
        let pacer = match FramePacer::new(config.frame_rate) {
            Ok(p) => p,
            Err(PacerError::InvalidFrameRate) => {
                return Err(SessionError::InvalidFrameRate);
            },
        };
        let has_audio = match config.audio_source {
            AudioSource::NoAudio => false,
            _ => true,
        };
        let resolution = crate::video::encoding_session::ensure_even_size(config.resolution);
        let audio_driver = if has_audio {
            Some(Driver::new())
        } else {
            None
        };
        Ok(
            RecordingSession {
                state: SessionState::Created,
                resolution,
                bit_rate: config.bit_rate,
                clock,
                pacer,
                video_driver: Driver::new(),
                audio_driver,
                writer: SampleWriter::new(has_audio, config.audio_queue_capacity),
                video_capture_running: false,
                audio_capture_running: false,
            },
        )
    }

    /// Starts the session, in consumer-before-producer order: the writer
    /// begins accepting samples, then both transform drivers start, then
    /// the capture sources are marked running.
    pub fn start(&mut self)
        requires
            old(self).inv(),
            old(self).state == SessionState::Created,
        ensures
            final(self).inv(),
            final(self).state == SessionState::Started,
            final(self).writer.started,
            !final(self).writer.finalized,
            final(self).video_driver.state == DriverState::Running,
            match final(self).audio_driver {
                Some(d) => d.state == DriverState::Running,
                None => !final(self).has_audio(),
            },
            final(self).video_capture_running,
            final(self).audio_capture_running == final(self).has_audio(),
            final(self).clock == old(self).clock,
            final(self).pacer == old(self).pacer,
            final(self).resolution == old(self).resolution,
            final(self).writer.audio_stream_index == old(self).writer.audio_stream_index,
            final(self).writer.audio_accepted@ == old(self).writer.audio_accepted@,
            final(self).writer.audio_written@ == old(self).writer.audio_written@,
            final(self).writer.video_written@ == old(self).writer.video_written@,
    {
        self.writer.begin_writing();
        let _started = self.video_driver.try_start();
        let has_audio = match &mut self.audio_driver {
            Some(d) => {
                let _audio_started = d.try_start();
                true
            },
            None => false,
        };
        self.video_capture_running = true;
        self.audio_capture_running = has_audio;
        self.state = SessionState::Started;
    }

    /// Stops the session in reverse order: the capture sources first, so
    /// no new raw samples enter the pipeline, then a stop request to each
    /// transform driver (whose event loop drains its transform), then the
    /// writer, which drains the remaining queued audio and finalizes.
    /// Returns the writes the drained audio still requires of the sink.
    pub fn stop(&mut self) -> (drained: Vec<WriteRecord>)
        requires
            old(self).inv(),
            old(self).state == SessionState::Started,
        ensures
            final(self).inv(),
            final(self).state == SessionState::Stopped,
            !final(self).video_capture_running,
            !final(self).audio_capture_running,
            final(self).video_driver == (Driver { stop_requested: true, ..old(self).video_driver }),
            match old(self).audio_driver {
                Some(d) => final(self).audio_driver == Some(
                    Driver { stop_requested: true, ..d },
                ),
                None => final(self).audio_driver is None,
            },
            final(self).writer.finalized,
            final(self).clock == old(self).clock,
            final(self).pacer == old(self).pacer,
            final(self).resolution == old(self).resolution,
            final(self).writer.audio_accepted@ == old(self).writer.audio_accepted@,
            final(self).writer.video_written@ == old(self).writer.video_written@,
            final(self).writer.audio_written@ == old(self).writer.audio_written@ + old(
                self,
            ).writer.audio_queue@,
            drained@.len() == old(self).writer.audio_queue@.len(),
            forall|k: int|
                0 <= k < drained@.len() ==> #[trigger] drained@[k].sample == old(
                    self,
                ).writer.audio_queue@[k] && drained@[k].stream_index == old(
                    self,
                ).writer.audio_stream_index.unwrap(),
    {
        self.video_capture_running = false;
        self.audio_capture_running = false;
        self.video_driver.request_stop();
        match &mut self.audio_driver {
            Some(d) => {
                d.request_stop();
            },
            None => {},
        }
        let drained = self.writer.stop();
        self.state = SessionState::Stopped;
        drained
    }
}

/// Folds the results of the teardown stages: the first error observed is
/// the one reported, later results do not displace it, and recording a
/// result never fails — so every stage can be attempted unconditionally.
pub struct ErrorCollector {
    /// The first error recorded so far, as a platform result code.
    pub first: Option<i32>,
}

impl ErrorCollector {
    /// A collector that has seen no error.
    pub fn new() -> (c: ErrorCollector)
        ensures
            c.first is None,
    {
        ErrorCollector { first: None }
    }

    /// Records one stage's result: kept only if it is the first error.
    pub fn record(&mut self, result: Result<(), i32>)
        ensures
            final(self).first == match old(self).first {
                Some(e) => Some(e),
                None => match result {
                    Ok(()) => None::<i32>,
                    Err(e) => Some(e),
                },
            },
    {
        if self.first.is_none() {
            match result {
                Ok(()) => {},
                Err(e) => {
                    self.first = Some(e);
                },
            }
        }
    }

    /// The aggregate outcome: success only if every recorded stage
    /// succeeded, else the first error.
    pub fn into_result(self) -> (r: Result<(), i32>)
        ensures
            match self.first {
                Some(e) => r == Result::<(), i32>::Err(e),
                None => r == Result::<(), i32>::Ok(()),
            },
    {
        match self.first {
            Some(e) => Err(e),
            None => Ok(()),
        }
    }
}

} // verus!
