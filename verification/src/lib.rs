//! Verified game-client logic: level graphics decisions, mesh topology,
//! particle-effect pooling, input bindings and settings.
pub mod audio;
pub mod bar;
pub mod config;
pub mod controls;
pub mod debug;
pub mod hud;
pub mod level;
pub mod markers;
pub mod particles;
pub mod shapes;
pub mod plugins;
