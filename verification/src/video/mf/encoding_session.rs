//! Factory for Media Foundation video encoding sessions.
//!
//! The factory pins the hardware encoder chosen at startup; building the
//! actual session — transform activation, GPU plumbing, sink creation —
//! happens outside the library around the verified session state.

use vstd::prelude::*;

verus! {

/// Descriptor of one enumerated hardware video encoder: what the library
/// needs of the activated device is its identity and display name.
#[derive(Clone)]
pub struct VideoEncoderDevice {
    pub display_name: String,
}

impl VideoEncoderDevice {
    /// A descriptor for an encoder with the given display name.
    pub fn new(display_name: String) -> (d: VideoEncoderDevice)
        ensures
            d.display_name == display_name,
    {
        VideoEncoderDevice { display_name }
    }

    /// The human-readable name of the encoder.
    pub fn display_name(&self) -> (r: &str)
        ensures
            r@ == self.display_name@,
    {
        self.display_name.as_str()
    }
}

/// Builds Media Foundation video encoding sessions for one fixed encoder
/// device.
pub struct MFVideoEncodingSessionFactory {
    pub encoder_device: VideoEncoderDevice,
}

impl MFVideoEncodingSessionFactory {
    /// A factory bound to the given encoder device.
    pub fn new(encoder_device: VideoEncoderDevice) -> (f: MFVideoEncodingSessionFactory)
        ensures
            f.encoder_device == encoder_device,
    {
        MFVideoEncodingSessionFactory { encoder_device }
    }

    /// The device this factory builds sessions for.
    pub fn encoder_device(&self) -> (r: &VideoEncoderDevice)
        ensures
            r.display_name@ == self.encoder_device.display_name@,
    {
        &self.encoder_device
    }
}

} // verus!
