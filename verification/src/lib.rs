//! Interaction and transform core for a mouse-driven spinning-cube view.
//!
//! Angles and angular velocities are kept in integer angle units so that
//! every state change has an exact arithmetic meaning: one full revolution
//! is `state::TURN` units.  The transform pipeline builds the perspective
//! and model-view matrices in fixed-point form, and the cube geometry is
//! produced as plain integer data.  The host layer that owns the drawing
//! surface converts these values to its own floating-point types.

pub mod geometry;
pub mod state;
pub mod transform;
