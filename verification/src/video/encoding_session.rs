//! Sizing helpers for the video encoding session: encoders take only even
//! frame dimensions, so requested sizes are rounded up to the next even
//! value before any stream is configured.

use vstd::prelude::*;

verus! {

/// A frame size in pixels.
#[derive(Copy, Clone, Debug, PartialEq, Eq, Structural)]
pub struct FrameSize {
    pub width: i32,
    pub height: i32,
}

/// Rounds a dimension up to the next even value: even values stay, odd
/// values grow by one.
pub fn ensure_even(value: i32) -> (r: i32)
    requires
        value < i32::MAX,
    ensures
        r % 2 == 0,
        r == if value % 2 == 0 {
            value as int
        } else {
            value + 1
        },
{
    if value % 2 == 0 {
        value
    } else {
        value + 1
    }
}

/// Rounds both frame dimensions up to even values.
pub fn ensure_even_size(size: FrameSize) -> (r: FrameSize)
    requires
        size.width < i32::MAX,
        size.height < i32::MAX,
    ensures
        r.width % 2 == 0,
        r.height % 2 == 0,
        r.width == if size.width % 2 == 0 {
            size.width as int
        } else {
            size.width + 1
        },
        r.height == if size.height % 2 == 0 {
            size.height as int
        } else {
            size.height + 1
        },
{
    FrameSize { width: ensure_even(size.width), height: ensure_even(size.height) }
}

} // verus!
