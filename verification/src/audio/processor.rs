//! Plain description of an audio format, with the derived values the
//! platform media types are filled from.

use vstd::prelude::*;

verus! {

/// The sample encodings the pipeline distinguishes.
#[derive(Clone, Copy, Debug, PartialEq, Eq, Structural)]
pub enum AudioSubtype {
    /// Uncompressed integer PCM.
    Pcm,
    /// Uncompressed 32-bit floating point.
    Float,
    /// AAC, the encoded output format.
    Aac,
}

/// An audio format as the transforms and the container writer see it.
#[derive(Clone, Debug, PartialEq, Eq, Structural)]
pub struct AudioFormat {
    pub sample_rate: u32,
    pub channels: u16,
    pub bits_per_sample: u16,
    pub channel_mask: Option<u32>,
    pub format: AudioSubtype,
}

impl AudioFormat {
    /// Bytes per audio frame: channels times bytes per sample.
    pub fn block_align(&self) -> (r: u16)
        requires
            (self.channels as int) * ((self.bits_per_sample as int) / 8) <= u16::MAX,
        ensures
            r == (self.channels as int) * ((self.bits_per_sample as int) / 8),
    {
        self.channels * (self.bits_per_sample / 8)
    }

    /// Bytes per second of uncompressed audio in this format.
    pub fn avg_bytes_per_second(&self) -> (r: u32)
        requires
            (self.channels as int) * ((self.bits_per_sample as int) / 8) <= u16::MAX,
            (self.sample_rate as int) * ((self.channels as int) * ((self.bits_per_sample as int)
                / 8)) <= u32::MAX,
        ensures
            r == (self.sample_rate as int) * ((self.channels as int) * ((self.bits_per_sample
                as int) / 8)),
    {
        self.sample_rate * (self.block_align() as u32)
    }
}

/// Spec of the default AAC bit rate chosen for a sample rate and channel
/// count, in bits per second.
pub open spec fn aac_default_bitrate(sample_rate: int, channels: int) -> int {
    if sample_rate >= 48000 && channels >= 2 {
        192000
    } else if sample_rate >= 44100 && channels >= 2 {
        128000
    } else if sample_rate >= 44100 && channels == 1 {
        96000
    } else if sample_rate >= 32000 {
        80000
    } else if sample_rate >= 24000 {
        64000
    } else if sample_rate >= 16000 {
        48000
    } else {
        32000
    }
}

/// Default AAC bit rate for an output format when the caller gives none:
/// high-quality stereo down to voice quality by sample rate and channels.
pub fn default_aac_bitrate(sample_rate: u32, channels: u16) -> (r: u32)
    ensures
        r == aac_default_bitrate(sample_rate as int, channels as int),
{
    if sample_rate >= 48000 && channels >= 2 {
        192000
    } else if sample_rate >= 44100 && channels >= 2 {
        128000
    } else if sample_rate >= 44100 && channels == 1 {
        96000
    } else if sample_rate >= 32000 {
        80000
    } else if sample_rate >= 24000 {
        64000
    } else if sample_rate >= 16000 {
        48000
    } else {
        32000
    }
}

} // verus!
