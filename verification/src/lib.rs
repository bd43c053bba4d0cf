//! Decisions of a game streaming host that captures the screen of a wlroots
//! compositor: which globals, outputs and buffers to use, when to ask for a
//! frame, what to do with it, how to pass input on, and how to scale captured
//! images to the size of the stream.
//!
//! The library holds state and takes decisions. Talking to the compositor and to
//! the GPU is left to its caller.

pub mod binary64;
pub mod blit;
pub mod clock;
pub mod error;
pub mod formats;
pub mod frame;
pub mod geometry;
pub mod globals;
pub mod input;
pub mod keymap;
pub mod outputs;
pub mod poll;
pub mod pool;
pub mod run;
pub mod socket;
pub mod text;
pub mod wlroots;
