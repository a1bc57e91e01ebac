//! Control state of the desktop-duplication capture source.
//!
//! The capture itself runs on a dedicated platform thread outside the
//! library; this session object holds the start/stop decision logic. Each
//! control method returns the signal that must be forwarded to the capture
//! thread's control channel, or `None` when the call is a no-op.

use vstd::prelude::*;

verus! {

/// Start/stop handle for the screen-capture thread, mirroring the shape of
/// a graphics-capture session object.
#[derive(Clone)]
pub struct CustomGraphicsCaptureSession {
    pub running: bool,
}

impl CustomGraphicsCaptureSession {
    /// A session that has not been started.
    pub fn new() -> (s: CustomGraphicsCaptureSession)
        ensures
            !s.running,
    {
        CustomGraphicsCaptureSession { running: false }
    }

    /// Starts the capture: on a stopped session the start signal must be
    /// sent to the capture thread; a session already running stays as it
    /// is and nothing is sent.
    #[allow(non_snake_case)]
    pub fn StartCapture(&mut self) -> (signal: Option<bool>)
        ensures
            final(self).running,
            signal == if old(self).running {
                None
            } else {
                Some(true)
            },
    {
        if !self.running {
            self.running = true;
            Some(true)
        } else {
            None
        }
    }

    /// Stops the capture: on a running session the stop signal must be
    /// sent; closing a session that is already stopped is a no-op that
    /// still succeeds, and nothing is sent.
    #[allow(non_snake_case)]
    pub fn Close(&mut self) -> (signal: Option<bool>)
        ensures
            !final(self).running,
            signal == if old(self).running {
                Some(false)
            } else {
                None
            },
    {
        if self.running {
            self.running = false;
            Some(false)
        } else {
            None
        }
    }
}

} // verus!
