//! Flappy Dragon: the per-frame simulation of a side-scrolling arcade game.
//!
//! A dragon falls under gravity, flaps upwards on demand and has to pass through
//! the gap of one wall after another. The crate holds the whole simulation: the
//! dragon's physics, the generation of walls, collision and scoring, and the
//! session state machine that turns one frame's input into the next state and a
//! list of drawing commands. Every function is verified against a mathematical
//! model of the game; drawing the commands and reading the keyboard is left to
//! the caller.
//!
//! The one thing that is not computed here is chance: the row of each new gap
//! is drawn from `bracket_lib`'s random number generator, and the glyphs are
//! looked up in its code page. What is assumed of both is said where they are
//! called, in [`random`] and [`render`].
pub mod obstacle;
pub mod player;
pub mod random;
pub mod render;
pub mod state;

pub use obstacle::Obstacle;
pub use player::Player;
pub use render::{Color, RenderCommand, SCREEN_HEIGHT, SCREEN_WIDTH};
pub use state::{GameMode, Key, State, FRAME_DURATION};
