//! Sample types on the two sides of the audio encode transform.
//!
//! The transform itself — activation, media types, the input/output calls —
//! is platform work outside the library; its protocol is driven by the
//! shared transform-driver state machine in [`crate::driver`].

use vstd::prelude::*;

verus! {

use crate::writer::EncodedSample;

/// One uncompressed audio sample submitted to the encode transform.
#[derive(Clone)]
pub struct AudioEncoderInputSample {
    pub data: Vec<u8>,
    pub timestamp: i64,
    pub duration: i64,
    pub frames: u32,
}

impl AudioEncoderInputSample {
    pub fn new(data: Vec<u8>, timestamp: i64, duration: i64, frames: u32) -> (s:
        AudioEncoderInputSample)
        ensures
            s.data@ == data@,
            s.timestamp == timestamp,
            s.duration == duration,
            s.frames == frames,
    {
        AudioEncoderInputSample { data, timestamp, duration, frames }
    }
}

/// One encoded audio packet pulled out of the transform: the AAC payload
/// with its timestamp and duration in 100 ns units.
#[derive(Debug)]
pub struct EncodedAudioPacket {
    pub data: Vec<u8>,
    pub timestamp: i64,
    pub duration: i64,
}

impl EncodedAudioPacket {
    /// Repackages the packet as the sample writer's encoded-sample type.
    pub fn into_sample(self) -> (s: EncodedSample)
        ensures
            s.data@ == self.data@,
            s.timestamp == self.timestamp,
            s.duration == self.duration,
    {
        EncodedSample { data: self.data, timestamp: self.timestamp, duration: self.duration }
    }
}

} // verus!
