//! The plugins that make up the game client. Each one groups the systems and
//! resources of one part of the client; the engine-facing side of every
//! plugin, its registration with the app, is done by the application.
use vstd::prelude::*;

verus! {

/// The whole client: input, graphics, audio, camera and settings.
#[derive(Debug, Clone, Copy, PartialEq, Eq, Structural)]
pub struct GamClientPlugin;

/// All ability graphics.
#[derive(Debug, Clone, Copy, PartialEq, Eq, Structural)]
pub struct AbilityPlugin;

/// Gravity-ball graphics and its ground outline.
#[derive(Debug, Clone, Copy, PartialEq, Eq, Structural)]
pub struct GravityBallPlugin;

/// Grenade graphics, outlines and explosions.
#[derive(Debug, Clone, Copy, PartialEq, Eq, Structural)]
pub struct GrenadePlugin;

/// Bullet graphics and hit effects.
#[derive(Debug, Clone, Copy, PartialEq, Eq, Structural)]
pub struct GunPlugin;

/// Rocket graphics and explosions.
#[derive(Debug, Clone, Copy, PartialEq, Eq, Structural)]
pub struct RocketPlugin;

/// Transport-beam graphics.
#[derive(Debug, Clone, Copy, PartialEq, Eq, Structural)]
pub struct TransportBeamPlugin;

/// The aiming cursor and laser sight.
#[derive(Debug, Clone, Copy, PartialEq, Eq, Structural)]
pub struct AimPlugin;

/// Background music.
#[derive(Debug, Clone, Copy, PartialEq, Eq, Structural)]
pub struct MusicPlugin;

/// Health and energy bars.
#[derive(Debug, Clone, Copy, PartialEq, Eq, Structural)]
pub struct BarPlugin;

/// The camera that follows the player.
#[derive(Debug, Clone, Copy, PartialEq, Eq, Structural)]
pub struct CameraPlugin;

/// The persistent settings and the input manager.
#[derive(Debug, Clone, Copy, PartialEq, Eq, Structural)]
pub struct ConfigPlugin;

/// On-screen debug text.
#[derive(Debug, Clone, Copy, PartialEq, Eq, Structural)]
pub struct DebugTextPlugin;

/// Graphics for newly created entities: level, characters, status effects.
#[derive(Debug, Clone, Copy, PartialEq, Eq, Structural)]
pub struct DrawPlugin;

/// Character graphics and death effects.
#[derive(Debug, Clone, Copy, PartialEq, Eq, Structural)]
pub struct CharacterPlugin;

/// Explosion graphics.
#[derive(Debug, Clone, Copy, PartialEq, Eq, Structural)]
pub struct ExplosionPlugin;

/// The loading splash screen.
#[derive(Debug, Clone, Copy, PartialEq, Eq, Structural)]
pub struct SplashPlugin;

/// The settings menu and the heads-up display.
#[derive(Debug, Clone, Copy, PartialEq, Eq, Structural)]
pub struct UiPlugin;

/// The heads-up display: score, frame time and frame rate.
#[derive(Debug, Clone, Copy, PartialEq, Eq, Structural)]
pub struct HudPlugin;

} // verus!
