//! Audio sample-generation decisions for the encoding session: which
//! source a session mixes from, and the conversion from captured samples
//! to encoder input.

use vstd::prelude::*;

verus! {

use crate::audio::capture_audio::AudioSample;
use crate::audio::encoder::AudioEncoderInputSample;

/// Which endpoint the audio encoding session captures.
#[derive(Clone, Debug, PartialEq, Eq, Structural)]
pub enum AudioSource {
    /// Loopback of everything the desktop plays.
    Desktop,
    /// The currently focused window's audio; captured as desktop loopback
    /// until per-session capture is wired up.
    ActiveWindow,
}

/// Repackages one captured audio sample as encoder input; the frame count
/// is not carried over (the encoder derives it from the format).
pub fn convert_to_encoder_input(audio_sample: AudioSample) -> (r: AudioEncoderInputSample)
    ensures
        r.data@ == audio_sample.data@,
        r.timestamp == audio_sample.timestamp,
        r.duration == audio_sample.duration,
        r.frames == 0,
{
    AudioEncoderInputSample {
        data: audio_sample.data,
        timestamp: audio_sample.timestamp,
        duration: audio_sample.duration,
        frames: 0,
    }
}

} // verus!
