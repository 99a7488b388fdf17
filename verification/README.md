# gam_client

The client side of a cooperative action game: input, graphics, audio and
settings. The decisions that the client makes are written as a library
verified with Verus (`src/`); the program that drives the game engine, draws
and plays sound is in `app/`.

- `src/level.rs` – wall kinds and their materials, how a wall is cut into a
  floor part and an upper part, and the grid of lights over a level.
- `src/shapes.rs` – vertex layout and triangles of the ring-shaped outline
  meshes; every triangle index is proved to name a vertex.
- `src/particles.rs` – a pool of particle-effect instances; within a frame
  each trigger takes the next instance.
- `src/config.rs` – user actions, their game and menu subsets, the default
  bindings (both keyboard-and-mouse and gamepad cover every action), graphics
  settings and the default ability loadout.
- `src/controls.rs` – which game actions are held, and whether the camera
  follows the mouse or the gamepad.
- `src/hud.rs`, `src/audio.rs`, `src/debug.rs` – frame-rate sampling, music
  track choice, debugging flags.
- `src/markers.rs`, `src/bar.rs`, `src/plugins.rs` – marker and plugin types;
  `app/` holds their engine-facing copies.

`tests/` runs the library on concrete values.
