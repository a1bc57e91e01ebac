//! Identity of a registered global hotkey.
//!
//! Registration with the window system happens outside the library; each
//! registration is handed a fresh identifier, and unregistration must name
//! the same identifier again.

use vstd::prelude::*;

verus! {

/// One registered hotkey, known by the identifier it was registered under.
pub struct HotKey {
    pub id: i32,
}

impl HotKey {
    /// Records a hotkey registered under `id`.
    pub fn new(id: i32) -> (h: HotKey)
        ensures
            h.id == id,
    {
        HotKey { id }
    }

    /// The identifier to unregister this hotkey with.
    pub fn id(&self) -> (r: i32)
        ensures
            r == self.id,
    {
        self.id
    }

    /// The identifier for the next hotkey registration after `previous`
    /// registrations: identifiers count up from one.
    pub fn next_id(previous: i32) -> (r: i32)
        requires
            previous < i32::MAX,
        ensures
            r == previous + 1,
    {
        previous + 1
    }
}

} // verus!
