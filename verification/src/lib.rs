//! A verified core for an interactive phyllotaxis ("sunflower") pattern
//! generator.
//!
//! The library covers the three components that carry the interesting
//! invariants: the parameter store with its change-detection snapshot, the
//! pure pattern synthesizer, and the regeneration controller that manages
//! resource-handle reuse, mode switches and the optional animation drift.
//! The rendering and widget substrate around it is unverified glue that talks
//! to this library through plain values.
//!
//! All real-valued quantities are held in fixed point: one unit is
//! `SCALE` (one million) micro-units. Angles are measured in micro-turns
//! (one turn, a full revolution, is `SCALE` micro-turns), so converting a
//! pattern to screen coordinates is a single multiplication by 2π per
//! element, done by the unverified renderer.

pub mod controller;
pub mod fixed;
pub mod input_block;
pub mod laws;
pub mod params;
pub mod store;
pub mod synth;
