//! Control state of the screen-capture variant whose thread anchors its
//! timestamps to a shared session-start counter reading.
//!
//! As in [`crate::capture`], the platform thread lives outside the
//! library; starting hands it the session's anchor counter reading so all
//! frame timestamps are computed relative to the same origin as audio.

use vstd::prelude::*;

verus! {

/// Start/stop handle for the anchored screen-capture thread. The start
/// signal carries the session-start counter reading.
#[derive(Clone)]
pub struct CustomGraphicsCaptureSession {
    pub running: bool,
}

impl CustomGraphicsCaptureSession {
    /// A session that has not been started.
    pub fn new() -> (s: CustomGraphicsCaptureSession)
        ensures
            !s.running,
    {
        CustomGraphicsCaptureSession { running: false }
    }

    /// Starts the capture anchored at `start_qpc`: on a stopped session
    /// the signal `(true, start_qpc)` must be sent to the capture thread;
    /// a running session stays as it is and nothing is sent.
    #[allow(non_snake_case)]
    pub fn StartCapture(&mut self, start_qpc: i64) -> (signal: Option<(bool, i64)>)
        ensures
            final(self).running,
            signal == if old(self).running {
                None
            } else {
                Some((true, start_qpc))
            },
    {
        if !self.running {
            self.running = true;
            Some((true, start_qpc))
        } else {
            None
        }
    }

    /// Stops the capture: on a running session the signal `(false, 0)`
    /// must be sent; closing an already-stopped session is a no-op that
    /// still succeeds, and nothing is sent.
    #[allow(non_snake_case)]
    pub fn Close(&mut self) -> (signal: Option<(bool, i64)>)
        ensures
            !final(self).running,
            signal == if old(self).running {
                Some((false, 0i64))
            } else {
                None
            },
    {
        if self.running {
            self.running = false;
            Some((false, 0))
        } else {
            None
        }
    }
}

} // verus!
