use displayrecorder::audio::capture_audio::{
    push_captured_samples, sample_ring, AudioSample, CaptureAudioGenerator,
};
use displayrecorder::audio::capture_microphone::{
    capture_microphone_block, mic_sample_ring, CaptureMicrophoneGenerator,
};
use displayrecorder::audio::encoder::EncodedAudioPacket;
use displayrecorder::audio::encoding_session::convert_to_encoder_input;
use displayrecorder::audio::processor::{default_aac_bitrate, AudioFormat, AudioSubtype};
use displayrecorder::audio::{
    default_channel_mask, mf_subtype_for, packet_byte_count, packet_duration_100ns,
    pcm16_capture_format, AudioFormatError, WaveSubFormat,
};

#[test]
fn ring_hands_pushed_samples_through_in_order() {
    let (mut producer, consumer) = sample_ring(8);
    assert!(producer.try_push(0x3f80_0000));
    assert!(producer.try_push(0x4000_0000));
    assert!(producer.try_push(0x4040_0000));
    let mut generator = CaptureAudioGenerator::new(consumer);
    let samples = generator.try_get_audio_samples(10);
    assert_eq!(samples, vec![0x3f80_0000, 0x4000_0000, 0x4040_0000]);
    assert_eq!(generator.get_sample_position(), 3);
    // the ring is drained now
    let more = generator.try_get_audio_samples(10);
    assert!(more.is_empty());
    assert_eq!(generator.get_sample_position(), 3);
}

#[test]
fn ring_respects_its_capacity() {
    let (mut producer, _consumer) = sample_ring(2);
    assert!(producer.try_push(1));
    assert!(producer.try_push(2));
    assert!(!producer.try_push(3));
}

#[test]
fn capture_block_push_drops_overflow_and_keeps_order() {
    let (mut producer, generator) = CaptureAudioGenerator::create(4);
    let block: Vec<u32> = vec![10, 20, 30, 40, 50, 60];
    let pushed = push_captured_samples(&mut producer, &block);
    assert_eq!(pushed, 4);
    let mut generator = generator;
    let samples = generator.try_get_audio_samples(10);
    assert_eq!(samples, vec![10, 20, 30, 40]);
}

#[test]
fn generator_caps_a_poll_at_the_requested_count() {
    let (mut producer, consumer) = sample_ring(8);
    for v in 0..6u32 {
        assert!(producer.try_push(v));
    }
    let mut generator = CaptureAudioGenerator::new(consumer);
    let first = generator.try_get_audio_samples(4);
    assert_eq!(first, vec![0, 1, 2, 3]);
    let rest = generator.try_get_audio_samples(4);
    assert_eq!(rest, vec![4, 5]);
    assert_eq!(generator.get_sample_position(), 6);
}

#[test]
fn sample_position_yields_media_time() {
    let (_producer, consumer) = sample_ring(4);
    let mut generator = CaptureAudioGenerator::new(consumer);
    generator.set_format(48_000, 2, 32);
    assert!(generator.is_initialized());
    assert_eq!(generator.get_sample_rate(), 48_000);
    assert_eq!(generator.get_sample_time(), 0);
    assert_eq!(generator.calculate_duration(48_000), 10_000_000);
    assert_eq!(generator.calculate_duration(480), 100_000);
}

#[test]
fn microphone_ring_hands_stamped_blocks_through() {
    let (mut producer, consumer) = mic_sample_ring(4);
    let block = AudioSample { data: vec![1, 2, 3, 4], timestamp: 777, duration: 100_000, frames: 1 };
    assert!(producer.try_push(block));
    let mut generator = CaptureMicrophoneGenerator::new(consumer, 1_000, 10_000_000);
    let got = generator.try_get_audio_sample().unwrap();
    assert_eq!(got.timestamp, 777);
    assert_eq!(got.data, vec![1, 2, 3, 4]);
    assert!(generator.try_get_audio_sample().is_none());
}

#[test]
fn microphone_blocks_are_assembled_and_dropped_when_full() {
    let (mut producer, mut generator) = CaptureMicrophoneGenerator::create(1, 0, 10_000_000);
    assert!(capture_microphone_block(&mut producer, vec![1, 1], 100, 50, 1));
    // the ring holds one block; the second is dropped, not blocked on
    assert!(!capture_microphone_block(&mut producer, vec![2, 2], 200, 50, 1));
    let got = generator.try_get_audio_sample().unwrap();
    assert_eq!((got.timestamp, got.duration, got.frames), (100, 50, 1));
    assert_eq!(got.data, vec![1, 1]);
    assert!(generator.try_get_audio_sample().is_none());
}

#[test]
fn microphone_qpc_is_anchored_to_session_start() {
    let (_producer, consumer) = mic_sample_ring(4);
    let generator = CaptureMicrophoneGenerator::new(consumer, 1_000, 10_000_000);
    assert_eq!(generator.qpc_to_time(1_000), 0);
    assert_eq!(generator.qpc_to_time(51_000), 50_000);
}

#[test]
fn packet_arithmetic_matches_the_format() {
    assert_eq!(packet_duration_100ns(480, 48_000), 100_000);
    assert_eq!(packet_duration_100ns(441, 44_100), 100_000);
    assert_eq!(packet_duration_100ns(0, 48_000), 0);
    assert_eq!(packet_byte_count(100, 4), 400);
    assert_eq!(packet_byte_count(0, 4), 0);
}

#[test]
fn channel_masks_default_by_channel_count() {
    assert_eq!(default_channel_mask(1), 0x4);
    assert_eq!(default_channel_mask(2), 0x3);
    assert_eq!(default_channel_mask(6), 0);
}

#[test]
fn aac_bitrate_defaults_follow_the_quality_ladder() {
    assert_eq!(default_aac_bitrate(48_000, 2), 192_000);
    assert_eq!(default_aac_bitrate(44_100, 2), 128_000);
    assert_eq!(default_aac_bitrate(44_100, 1), 96_000);
    assert_eq!(default_aac_bitrate(32_000, 1), 80_000);
    assert_eq!(default_aac_bitrate(24_000, 1), 64_000);
    assert_eq!(default_aac_bitrate(16_000, 1), 48_000);
    assert_eq!(default_aac_bitrate(8_000, 1), 32_000);
}

#[test]
fn format_derives_block_align_and_byte_rate() {
    let format = AudioFormat {
        sample_rate: 48_000,
        channels: 2,
        bits_per_sample: 16,
        channel_mask: Some(3),
        format: AudioSubtype::Pcm,
    };
    assert_eq!(format.block_align(), 4);
    assert_eq!(format.avg_bytes_per_second(), 192_000);
}

#[test]
fn subtype_selection_follows_the_device_format() {
    assert_eq!(mf_subtype_for(WaveSubFormat::IeeeFloat, 32), Ok(AudioSubtype::Float));
    assert_eq!(mf_subtype_for(WaveSubFormat::Pcm, 16), Ok(AudioSubtype::Pcm));
    assert_eq!(
        mf_subtype_for(WaveSubFormat::Pcm, 24),
        Err(AudioFormatError::UnsupportedBitDepth)
    );
    assert_eq!(mf_subtype_for(WaveSubFormat::Other, 16), Ok(AudioSubtype::Float));
}

#[test]
fn capture_format_is_pcm16_with_a_mask_fallback() {
    let kept = pcm16_capture_format(44_100, 2, 0x63f);
    assert_eq!(kept.channel_mask, Some(0x63f));
    assert_eq!(kept.bits_per_sample, 16);
    assert_eq!(kept.format, AudioSubtype::Pcm);
    let fallback = pcm16_capture_format(48_000, 2, 0);
    assert_eq!(fallback.channel_mask, Some(0x3));
    let mono = pcm16_capture_format(48_000, 1, 0);
    assert_eq!(mono.channel_mask, Some(0x4));
}

#[test]
fn captured_samples_convert_to_encoder_input() {
    let block = AudioSample { data: vec![5, 6], timestamp: 42, duration: 7, frames: 11 };
    let input = convert_to_encoder_input(block);
    assert_eq!(input.data, vec![5, 6]);
    assert_eq!(input.timestamp, 42);
    assert_eq!(input.duration, 7);
    assert_eq!(input.frames, 0);
}

#[test]
fn encoded_packet_becomes_a_writer_sample() {
    let packet = EncodedAudioPacket { data: vec![0xad, 0x15], timestamp: 9, duration: 3 };
    let sample = packet.into_sample();
    assert_eq!(sample.data, vec![0xad, 0x15]);
    assert_eq!(sample.timestamp, 9);
    assert_eq!(sample.duration, 3);
}
