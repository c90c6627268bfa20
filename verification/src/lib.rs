//! Frame-by-frame motion of a platformer character, in exact integer arithmetic.
//!
//! Time is counted in microseconds and distance in micro-units (millionths of a
//! world unit), so a speed in world units per second is also a speed in
//! micro-units per microsecond and every product is exact. The host reads the
//! keyboard, the clock and the collision resolver, hands each frame to
//! [`controller::PlayerState::on_frame`] and applies the displacement that
//! comes back.
//!
//! - [`config`]: the tuning constants and their validation.
//! - [`input`]: the logical actions of a frame and the resolver's report.
//! - [`model`]: one frame as a mathematical function.
//! - [`controller`]: the player's state and the operation that advances it.
//! - [`laws`]: what is proved of one frame and of runs of frames.
//! - [`scene`]: the rectangles that a level is built from.

pub mod config;
pub mod controller;
pub mod input;
pub mod laws;
pub mod model;
pub mod scene;
