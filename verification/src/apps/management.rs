//! The management panel. It shows a placeholder, and counts the frames for
//! which it was on show.

use crate::models::{tick, ticked};
use vstd::prelude::*;

verus! {

/// The state of the management panel.
#[derive(PartialEq, Eq, Structural, Clone, Copy, Debug)]
pub struct Management {
    /// Frames for which the panel was on show since the shell started.
    /// Not stored.
    frames: u64,
}

impl View for Management {
    type V = nat;

    /// The number of frames for which the panel was on show.
    closed spec fn view(&self) -> nat {
        self.frames as nat
    }
}

impl Default for Management {
    fn default() -> (panel: Self)
        ensures
            panel@ == 0,
    {
        Management { frames: 0 }
    }
}

impl Management {
    /// One frame of the panel: it was on show once more.
    pub fn update(&mut self)
        ensures
            final(self)@ == ticked(old(self)@),
    {
        self.frames = tick(self.frames);
    }

    /// The number of frames for which the panel was on show.
    pub fn frames(&self) -> (frames: u64)
        ensures
            frames as nat == self@,
    {
        self.frames
    }
}

} // verus!
