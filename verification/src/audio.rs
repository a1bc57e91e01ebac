//! Shared audio types and timestamp arithmetic for the capture side.
//!
//! The platform capture thread extracts plain packets from the device
//! buffers and stamps them with session-relative media times; the
//! arithmetic it uses lives here, verified, while the device I/O itself
//! stays outside the library.

pub mod capture_audio;
pub mod capture_microphone;
pub mod encoder;
pub mod encoding_session;
pub mod processor;

use vstd::prelude::*;

verus! {

use crate::clock::{media_time_of, ClockError, MEDIA_UNITS_PER_SECOND};
use vstd::arithmetic::mul::lemma_mul_inequality;

/// Which audio endpoint feeds the session, if any.
#[derive(Clone, Copy, Debug, PartialEq, Eq, Structural)]
pub enum AudioSource {
    /// Loopback capture of the default render endpoint (system audio).
    DefaultLoopback,
    /// The default capture endpoint (microphone).
    DefaultMicrophone,
    /// No audio: the session records video only.
    NoAudio,
}

/// One raw audio packet handed from the capture thread to the encoder:
/// the bytes (absent for silence), the session-relative timestamp and
/// duration in 100 ns units, and pass-through flags.
#[derive(Debug)]
pub struct AudioDataPacket {
    pub data: Option<Vec<u8>>,
    pub timestamp: i64,
    pub duration: i64,
    pub flags: u32,
}

/// Converts a raw counter reading to 100 ns media time with the cached
/// counter frequency. A zero reading maps to zero without consulting the
/// frequency; a non-positive frequency is rejected otherwise.
pub fn convert_qpc_to_mf_timespan(qpc_time: i64, qpc_frequency: i64) -> (r: Result<
    i64,
    ClockError,
>)
    requires
        0 <= qpc_time,
        1 <= qpc_frequency ==> media_time_of(qpc_time as int, qpc_frequency as int) <= i64::MAX,
    ensures
        r is Err <==> qpc_time != 0 && qpc_frequency <= 0,
        r matches Ok(v) ==> v == if qpc_time == 0 {
            0int
        } else {
            media_time_of(qpc_time as int, qpc_frequency as int)
        },
{
    if qpc_time == 0 {
        return Ok(0);
    }
    if qpc_frequency <= 0 {
        return Err(ClockError::InvalidFrequency);
    }
    proof {
        lemma_mul_inequality(qpc_time as int, i64::MAX as int, MEDIA_UNITS_PER_SECOND as int);
    }
    let wide: u128 = (qpc_time as u128) * (MEDIA_UNITS_PER_SECOND as u128);
    let media: u128 = wide / (qpc_frequency as u128);
    Ok(media as i64)
}

/// Duration, in 100 ns units, of `frames` audio frames at `sample_rate`
/// frames per second.
pub fn packet_duration_100ns(frames: u32, sample_rate: u32) -> (r: i64)
    requires
        1 <= sample_rate,
    ensures
        r == (frames as int) * (MEDIA_UNITS_PER_SECOND as int) / (sample_rate as int),
        0 <= r,
{
    proof {
        lemma_mul_inequality(frames as int, u32::MAX as int, MEDIA_UNITS_PER_SECOND as int);
    }
    ((frames as i64) * MEDIA_UNITS_PER_SECOND) / (sample_rate as i64)
}

/// Size in bytes of `frames` audio frames whose frame (block) alignment is
/// `block_align` bytes.
pub fn packet_byte_count(frames: u32, block_align: u32) -> (r: u32)
    requires
        (frames as int) * (block_align as int) <= u32::MAX,
    ensures
        r == (frames as int) * (block_align as int),
{
    frames * block_align
}

/// The wave sub-format a capture device reports for its mix format.
#[derive(Clone, Copy, Debug, PartialEq, Eq, Structural)]
pub enum WaveSubFormat {
    /// IEEE floating-point samples.
    IeeeFloat,
    /// Integer PCM samples.
    Pcm,
    /// Anything else.
    Other,
}

/// Why a capture format cannot be described as a media type.
#[derive(Clone, Copy, Debug, PartialEq, Eq, Structural)]
pub enum AudioFormatError {
    /// Integer PCM with a bit depth other than 16 is not supported.
    UnsupportedBitDepth,
}

/// Chooses the media-type subtype for a captured wave format: float stays
/// float, 16-bit PCM stays PCM, PCM at any other depth is unsupported,
/// and an unknown sub-format falls back to float.
pub fn mf_subtype_for(sub_format: WaveSubFormat, bits_per_sample: u16) -> (r: Result<
    crate::audio::processor::AudioSubtype,
    AudioFormatError,
>)
    ensures
        match r {
            Ok(sub) => sub == match sub_format {
                WaveSubFormat::IeeeFloat => crate::audio::processor::AudioSubtype::Float,
                WaveSubFormat::Pcm => crate::audio::processor::AudioSubtype::Pcm,
                WaveSubFormat::Other => crate::audio::processor::AudioSubtype::Float,
            },
            Err(AudioFormatError::UnsupportedBitDepth) => true,
        },
        r is Err <==> sub_format == WaveSubFormat::Pcm && bits_per_sample != 16,
{
    match sub_format {
        WaveSubFormat::IeeeFloat => Ok(crate::audio::processor::AudioSubtype::Float),
        WaveSubFormat::Pcm => {
            if bits_per_sample == 16 {
                Ok(crate::audio::processor::AudioSubtype::Pcm)
            } else {
                Err(AudioFormatError::UnsupportedBitDepth)
            }
        },
        WaveSubFormat::Other => Ok(crate::audio::processor::AudioSubtype::Float),
    }
}

/// The 16-bit PCM capture format derived from a device's mix format: the
/// device's sample rate and channel layout are kept, the samples become
/// 16-bit PCM, and a missing channel mask falls back to the default for
/// the channel count.
pub fn pcm16_capture_format(mix_sample_rate: u32, mix_channels: u16, mix_channel_mask: u32) -> (r:
    crate::audio::processor::AudioFormat)
    ensures
        r.sample_rate == mix_sample_rate,
        r.channels == mix_channels,
        r.bits_per_sample == 16,
        r.format == crate::audio::processor::AudioSubtype::Pcm,
        r.channel_mask == Some(
            if mix_channel_mask != 0 {
                mix_channel_mask
            } else if mix_channels == 1 {
                4u32
            } else if mix_channels == 2 {
                3u32
            } else {
                0u32
            },
        ),
{
    let mask = if mix_channel_mask != 0 {
        mix_channel_mask
    } else {
        default_channel_mask(mix_channels)
    };
    crate::audio::processor::AudioFormat {
        sample_rate: mix_sample_rate,
        channels: mix_channels,
        bits_per_sample: 16,
        channel_mask: Some(mask),
        format: crate::audio::processor::AudioSubtype::Pcm,
    }
}

/// Default speaker mask for a channel count when the device reports none:
/// front-center for mono, front-left|front-right for stereo, unknown
/// otherwise.
pub fn default_channel_mask(channels: u16) -> (r: u32)
    ensures
        r == if channels == 1 {
            4int
        } else if channels == 2 {
            3int
        } else {
            0int
        },
{
    if channels == 1 {
        4
    } else if channels == 2 {
        3
    } else {
        0
    }
}

} // verus!
