//! Visibility state of the debug overlay.
//!
//! The overlay is a window drawn on top of the rendered scene that shows
//! live performance metrics. The library only tracks whether it is shown;
//! drawing the widgets is the overlay collaborator's job.

use vstd::prelude::*;

verus! {

/// Holds the state of the debug overlay (whether it is currently visible).
pub struct DebugOverlay {
    pub shown: bool,
}

impl Default for DebugOverlay {
    /// A fresh overlay starts hidden.
    fn default() -> (r: Self)
        ensures
            !r.shown,
    {
        Self::new()
    }
}

impl DebugOverlay {
    /// Creates a new overlay; it starts hidden.
    pub fn new() -> (r: Self)
        ensures
            !r.shown,
    {
        DebugOverlay { shown: false }
    }

    /// Flips the visibility of the overlay and changes nothing else.
    pub fn toggle(&mut self)
        ensures
            final(self).shown == !old(self).shown,
    {
        self.shown = !self.shown;
    }
}

} // verus!
