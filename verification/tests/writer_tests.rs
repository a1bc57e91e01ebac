use displayrecorder::writer::{AudioSubmit, EncodedSample, SampleWriter};

fn sample(timestamp: i64) -> EncodedSample {
    EncodedSample { data: vec![1, 2, 3], timestamp, duration: 100_000 }
}

#[test]
fn audio_written_in_submission_order() {
    let mut w = SampleWriter::new(true, 16);
    w.begin_writing();
    assert_eq!(w.submit_audio(sample(10)), AudioSubmit::Queued);
    assert_eq!(w.submit_audio(sample(20)), AudioSubmit::Queued);
    assert_eq!(w.submit_audio(sample(30)), AudioSubmit::Queued);
    let batch = w.write_pending_audio_samples();
    let stamps: Vec<i64> = batch.iter().map(|r| r.sample.timestamp).collect();
    assert_eq!(stamps, vec![10, 20, 30]);
    assert!(batch.iter().all(|r| r.stream_index == 1));
}

#[test]
fn full_queue_drops_the_sample_and_continues() {
    let mut w = SampleWriter::new(true, 2);
    w.begin_writing();
    assert_eq!(w.submit_audio(sample(1)), AudioSubmit::Queued);
    assert_eq!(w.submit_audio(sample(2)), AudioSubmit::Queued);
    assert_eq!(w.submit_audio(sample(3)), AudioSubmit::QueueFull);
    let batch = w.write_pending_audio_samples();
    assert_eq!(batch.len(), 2);
    assert_eq!(batch[0].sample.timestamp, 1);
    assert_eq!(batch[1].sample.timestamp, 2);
}

#[test]
fn video_only_writer_silently_discards_audio() {
    let mut w = SampleWriter::new(false, 8);
    w.begin_writing();
    assert!(w.audio_stream_index.is_none());
    assert_eq!(w.submit_audio(sample(5)), AudioSubmit::NoAudioStream);
    let batch = w.write_video_sample(sample(0));
    assert_eq!(batch.len(), 1);
    assert_eq!(batch[0].stream_index, 0);
}

#[test]
fn video_write_interleaves_pending_audio_first() {
    let mut w = SampleWriter::new(true, 8);
    w.begin_writing();
    assert_eq!(w.submit_audio(sample(100)), AudioSubmit::Queued);
    assert_eq!(w.submit_audio(sample(200)), AudioSubmit::Queued);
    let batch = w.write_video_sample(sample(150));
    assert_eq!(batch.len(), 3);
    assert_eq!((batch[0].stream_index, batch[0].sample.timestamp), (1, 100));
    assert_eq!((batch[1].stream_index, batch[1].sample.timestamp), (1, 200));
    assert_eq!((batch[2].stream_index, batch[2].sample.timestamp), (0, 150));
}

#[test]
fn stop_drains_remaining_audio_then_finalizes() {
    let mut w = SampleWriter::new(true, 8);
    w.begin_writing();
    assert_eq!(w.submit_audio(sample(7)), AudioSubmit::Queued);
    assert_eq!(w.submit_audio(sample(8)), AudioSubmit::Queued);
    let batch = w.stop();
    assert!(w.finalized);
    let stamps: Vec<i64> = batch.iter().map(|r| r.sample.timestamp).collect();
    assert_eq!(stamps, vec![7, 8]);
}

#[test]
fn order_survives_interleaved_writes() {
    let mut w = SampleWriter::new(true, 4);
    w.begin_writing();
    let mut audio_seen: Vec<i64> = Vec::new();
    assert_eq!(w.submit_audio(sample(1)), AudioSubmit::Queued);
    for r in w.write_video_sample(sample(1000)) {
        if r.stream_index == 1 {
            audio_seen.push(r.sample.timestamp);
        }
    }
    assert_eq!(w.submit_audio(sample(2)), AudioSubmit::Queued);
    assert_eq!(w.submit_audio(sample(3)), AudioSubmit::Queued);
    for r in w.write_video_sample(sample(2000)) {
        if r.stream_index == 1 {
            audio_seen.push(r.sample.timestamp);
        }
    }
    assert_eq!(w.submit_audio(sample(4)), AudioSubmit::Queued);
    for r in w.stop() {
        if r.stream_index == 1 {
            audio_seen.push(r.sample.timestamp);
        }
    }
    assert_eq!(audio_seen, vec![1, 2, 3, 4]);
}
