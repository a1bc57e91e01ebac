use displayrecorder::audio::AudioSource;
use displayrecorder::clock::ClockAnchor;
use displayrecorder::driver::{DriverEvent, DriverState, OutputOutcome, SubmitOutcome};
use displayrecorder::encoding_session::{
    ErrorCollector, RecordingSession, SessionConfig, SessionError, SessionState,
};
use displayrecorder::video::encoding_session::FrameSize;
use displayrecorder::writer::EncodedSample;

fn config(audio_source: AudioSource) -> SessionConfig {
    SessionConfig {
        resolution: FrameSize { width: 1920, height: 1080 },
        bit_rate: 8_000_000,
        frame_rate: 30,
        audio_source,
        audio_queue_capacity: 100,
    }
}

#[test]
fn end_to_end_video_only_five_seconds() {
    // 10 MHz counter: one tick is exactly one 100 ns media unit
    let clock = ClockAnchor::new(1_000, 10_000_000).unwrap();
    let mut session = RecordingSession::new(config(AudioSource::NoAudio), clock).unwrap();
    // video-only: the container holds exactly one video stream, no audio
    assert!(session.writer.audio_stream_index.is_none());
    assert_eq!(session.writer.video_stream_index, 0);
    assert!(session.audio_driver.is_none());
    assert_eq!(session.resolution, FrameSize { width: 1920, height: 1080 });

    session.start();
    assert_eq!(session.state, SessionState::Started);
    assert_eq!(session.video_driver.state, DriverState::Running);
    assert!(session.video_capture_running);
    assert!(!session.audio_capture_running);

    let period = session.pacer.period;
    let mut writes: Vec<(u32, i64)> = Vec::new();
    // a frame arrives every 33 ms for five seconds
    let mut k: i64 = 0;
    loop {
        let qpc = 1_000 + k * 330_000;
        let t = session.clock.relative(qpc);
        if t > 50_000_000 {
            break;
        }
        if session.pacer.accept(t) {
            session.video_driver.handle(DriverEvent::InputPulled(true));
            session
                .video_driver
                .handle(DriverEvent::InputSubmitted(SubmitOutcome::Accepted));
            session
                .video_driver
                .handle(DriverEvent::OutputPulled(OutputOutcome::Produced));
            let encoded = EncodedSample { data: vec![0u8; 16], timestamp: t, duration: period };
            for r in session.writer.write_video_sample(encoded) {
                writes.push((r.stream_index, r.sample.timestamp));
            }
        }
        k += 1;
    }
    let drained = session.stop();
    assert!(drained.is_empty());
    assert_eq!(session.state, SessionState::Stopped);
    assert!(session.writer.finalized);

    // every write went to the one video stream
    assert!(writes.iter().all(|&(index, _)| index == 0));
    assert_eq!(writes.len(), 150);
    // timestamps are strictly increasing and paced at the target rate
    for pair in writes.windows(2) {
        assert!(pair[0].1 < pair[1].1);
    }
    // duration is five seconds, within one frame period
    let duration = writes.last().unwrap().1 + period;
    assert!((duration - 50_000_000).abs() <= period, "duration {}", duration);
}

#[test]
fn session_with_audio_holds_two_streams_and_drains_on_stop() {
    let clock = ClockAnchor::new(0, 10_000_000).unwrap();
    let mut session =
        RecordingSession::new(config(AudioSource::DefaultLoopback), clock).unwrap();
    assert_eq!(session.writer.audio_stream_index, Some(1));
    assert!(session.audio_driver.is_some());

    session.start();
    assert!(session.audio_capture_running);
    assert_eq!(session.audio_driver.as_ref().unwrap().state, DriverState::Running);

    let a = EncodedSample { data: vec![9], timestamp: 10, duration: 5 };
    let b = EncodedSample { data: vec![9], timestamp: 20, duration: 5 };
    session.writer.submit_audio(a);
    session.writer.submit_audio(b);

    let drained = session.stop();
    assert_eq!(drained.len(), 2);
    assert_eq!(drained[0].sample.timestamp, 10);
    assert_eq!(drained[1].sample.timestamp, 20);
    assert!(!session.video_capture_running);
    assert!(!session.audio_capture_running);
    assert!(session.video_driver.stop_requested);
    assert!(session.audio_driver.as_ref().unwrap().stop_requested);
}

#[test]
fn session_rejects_invalid_frame_rate() {
    let clock = ClockAnchor::new(0, 10_000_000).unwrap();
    let mut bad = config(AudioSource::NoAudio);
    bad.frame_rate = 0;
    match RecordingSession::new(bad, clock) {
        Err(e) => assert_eq!(e, SessionError::InvalidFrameRate),
        Ok(_) => panic!("a zero frame rate must be rejected"),
    }
}

#[test]
fn odd_resolution_is_rounded_up_to_even() {
    let clock = ClockAnchor::new(0, 10_000_000).unwrap();
    let mut cfg = config(AudioSource::NoAudio);
    cfg.resolution = FrameSize { width: 1919, height: 1079 };
    let session = RecordingSession::new(cfg, clock).unwrap();
    assert_eq!(session.resolution, FrameSize { width: 1920, height: 1080 });
}

#[test]
fn error_collector_keeps_the_first_error() {
    let mut c = ErrorCollector::new();
    c.record(Ok(()));
    c.record(Err(-2004287480));
    c.record(Err(-1072875772));
    c.record(Ok(()));
    assert_eq!(c.into_result(), Err(-2004287480));

    let mut ok = ErrorCollector::new();
    ok.record(Ok(()));
    ok.record(Ok(()));
    assert_eq!(ok.into_result(), Ok(()));
}
