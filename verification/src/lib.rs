//! A verified core for a desktop recording pipeline.
//!
//! The library holds the synchronization and pacing logic that turns two
//! independently clocked, jitter-prone capture feeds (desktop video and
//! system/microphone audio) into a single monotonically increasing,
//! fixed-rate, correctly interleaved timestamp domain for a container
//! writer: the clock anchor, the video frame pacer, the transform-driver
//! state machine shared by both encoders, the sample writer that muxes
//! both tracks, and the session orchestrator that sequences start and
//! stop across all of them. Platform capture, GPU work and the container
//! sink live outside, behind plain-value interfaces.

pub mod audio;
pub mod capture;
pub mod clock;
pub mod hotkey;
pub mod video;
pub mod window_detector;
pub mod driver;
pub mod encoding_session;
pub mod pacer;
pub mod writer;

use vstd::prelude::*;

verus! {

use vstd::string::StrSliceExecFns;

/// A path separator on either slash convention.
pub open spec fn is_path_separator(c: char) -> bool {
    c == '/' || c == '\\'
}

/// The path names an MP4 file: it ends in the extension `.mp4`, and the
/// dot neither starts the path nor follows a separator — the file has a
/// non-empty base name.
pub open spec fn valid_mp4_path(s: Seq<char>) -> bool {
    &&& s.len() >= 5
    &&& s[s.len() - 4] == '.'
    &&& s[s.len() - 3] == 'm'
    &&& s[s.len() - 2] == 'p'
    &&& s[s.len() - 1] == '4'
    &&& !is_path_separator(s[s.len() - 5])
}

/// Accepts exactly the output paths that name an MP4 file.
pub fn validate_path(path: &str) -> (r: bool)
    ensures
        r == valid_mp4_path(path@),
{
    let n = path.unicode_len();
    if n < 5 {
        return false;
    }
    let dot = path.get_char(n - 4);
    let m = path.get_char(n - 3);
    let p = path.get_char(n - 2);
    let four = path.get_char(n - 1);
    let before = path.get_char(n - 5);
    dot == '.' && m == 'm' && p == 'p' && four == '4' && !(before == '/' || before == '\\')
}

} // verus!
