//! Ghost-replay core for a 2D platformer: a frame counter, frame-indexed
//! input and checkpoint logs, replay ghosts driven by the logs, periodic
//! drift correction against recorded checkpoints, and the spawn/clear
//! event protocol, together with the pure decision logic of the
//! surrounding game systems (player movement, animation selection,
//! collectable spawning, level-string input).

pub mod animation;
pub mod collect;
pub mod hit_box;
pub mod level_input;
pub mod player;
pub mod replay;
mod rng;
