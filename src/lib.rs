//! Verified core of a minimal OpenGL rendering bootstrap.
//!
//! The library decides; the caller performs. Every function here maps plain
//! values (window events, compile and link status, diagnostic bytes, vertex
//! counts) to results and to sequences of [`command::GlCommand`] that the
//! caller executes against the live graphics context.

pub mod command;
pub mod window;
pub mod error;
pub mod shader;
pub mod geometry;
pub mod frame;
