//! Which debugging aids the client turns on, from its command-line flags.
use vstd::prelude::*;

verus! {

/// The debugging flags of the command line.
#[derive(Debug, Clone, Copy, PartialEq, Eq, Structural)]
pub struct DebugFlags {
    /// If set, implies all other options.
    pub all: bool,
    /// Whether to draw AI paths.
    pub paths: bool,
    /// Whether to draw the debug raycast cursor.
    pub raycast_cursor: bool,
    /// Whether to show the egui inspector.
    pub inspector: bool,
    /// Whether to show the physics colliders.
    pub rapier: bool,
    /// Whether to log the frame time.
    pub frame_time: bool,
    /// Whether to show the debug text.
    pub debug_text: bool,
}

/// The debugging aids to turn on.
#[derive(Debug, Clone, Copy, PartialEq, Eq, Structural)]
pub struct DebugFeatures {
    pub paths: bool,
    pub raycast_cursor: bool,
    pub inspector: bool,
    pub rapier: bool,
    pub frame_time: bool,
    pub debug_text: bool,
}

impl DebugFlags {
    /// The aids that these flags turn on: each one that is set, and all of
    /// them when `all` is set.
    pub fn features(&self) -> (f: DebugFeatures)
        ensures
            f.paths == (self.all || self.paths),
            f.raycast_cursor == (self.all || self.raycast_cursor),
            f.inspector == (self.all || self.inspector),
            f.rapier == (self.all || self.rapier),
            f.frame_time == (self.all || self.frame_time),
            f.debug_text == (self.all || self.debug_text),
    {
        DebugFeatures {
            paths: self.all || self.paths,
            raycast_cursor: self.all || self.raycast_cursor,
            inspector: self.all || self.inspector,
            rapier: self.all || self.rapier,
            frame_time: self.all || self.frame_time,
            debug_text: self.all || self.debug_text,
        }
    }
}

} // verus!
