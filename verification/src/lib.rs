//! Easel: the logic of a shader playground, stated and proved.
//!
//! The crate holds what the render canvas, the dashboard and the movie
//! recorder decide: how user uniforms and push constants are laid out in
//! bytes, which bindings a shader sees, in which order post-processing passes
//! read and write their textures, how the frame clock behaves across pauses,
//! and how the two windows react to each other's messages. Everything that
//! touches a GPU, a window, a file or a subprocess is left to the caller, who
//! hands plain values in and carries the returned actions out.
//!
//! Single- and double-precision numbers are held as their IEEE-754 bit
//! patterns (`u32` and `u64`), and times as nanoseconds.

pub mod vector;
pub mod utils;
pub mod uniforms;
pub mod config;
pub mod push_constants;
pub mod texture;
pub mod binding;
pub mod clock;
pub mod postprocessing;
pub mod recording;
pub mod dashboard;
pub mod canvas;
