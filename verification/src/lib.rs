//! A Conway's-Game-of-Life simulation on a fixed-size toroidal grid, with a
//! verified per-cell update rule, frame capture into flat RGBA buffers, and a
//! two-color indexed GIF encoding of a bounded run of generations.

pub mod capture;
pub mod color;
pub mod encode;
pub mod framebuffer;
pub mod life;
pub mod patterns;
pub mod recorder;
