//! Decision rule of the foreground-window change detector.
//!
//! The window-event hook itself is platform plumbing outside the library;
//! on every foreground change it asks this rule whether recording should
//! continue and stores the answer in the session's recording flag.

use vstd::prelude::*;

verus! {

/// Whether the newly focused window should be recorded. The current
/// policy records every window.
pub fn should_record_window() -> (r: bool)
    ensures
        r,
{
    true
}

} // verus!
