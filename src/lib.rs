//! Procedural surface morphing: a catalog of parametric surfaces, the exact
//! smoothstep weight used to blend two of them, the lattice of sample
//! coordinates, and the hold/transition state machine that cycles through the
//! catalog.
//!
//! Time is counted in whole microseconds and coordinates are exact rationals,
//! so every decision the controller makes is proved; evaluating the
//! trigonometric surfaces themselves is left to the host.

pub mod cycler;
pub mod lattice;
pub mod smoothing;
pub mod surface;
