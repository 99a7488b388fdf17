//! Marker types that tag entities for the drawing systems.
use vstd::prelude::*;

verus! {

/// Tags an entity whose ground outline has already been drawn.
#[derive(Debug, Clone, Copy, PartialEq, Eq, Structural)]
pub struct HasOutline;

/// Tags geometry that blocks the line of sight of aiming.
#[derive(Debug, Clone, Copy, PartialEq, Eq, Structural)]
pub struct BlocksSight;

/// Tags a character whose graphics have been drawn.
#[derive(Debug, Clone, Copy, PartialEq, Eq, Structural)]
pub struct CharacterMarker;

/// Tags the glow that shows a character's temperature.
#[derive(Debug, Clone, Copy, PartialEq, Eq, Structural)]
pub struct TemperatureGlow;

/// Tags the receiving end of a transport beam.
#[derive(Debug, Clone, Copy, PartialEq, Eq, Structural)]
pub struct TransportReceiverGraphics;

/// Tags the root node of the heads-up display.
#[derive(Debug, Clone, Copy, PartialEq, Eq, Structural)]
pub struct Hud;

/// Tags the node that holds an energy bar.
#[derive(Debug, Clone, Copy, PartialEq, Eq, Structural)]
pub struct EnergybarMarker;

/// Tags the node that holds a health bar.
#[derive(Debug, Clone, Copy, PartialEq, Eq, Structural)]
pub struct HealthbarMarker;

} // verus!
