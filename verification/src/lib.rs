//! Welch's method for spectral estimation: the integer side of the algorithm.
//!
//! The library decides everything about a Welch estimate that does not depend
//! on sample values: which parameter sets are accepted and in what order they
//! are rejected, how the signal is cut into overlapping segments, how many
//! frequency bins the one-sided spectrum has and which of them are doubled.
//! It also moves sample buffers around (segment extraction, zero padding)
//! for any element type.
//!
//! Sampling rates are handed over as IEEE-754 `f64` bit patterns, so that the
//! library can decide exactly whether `fs > 0.0` holds.

pub mod error;
pub mod params;
pub mod rate;
pub mod plan;
pub mod segment;
pub mod laws;

pub use error::SpectralError;
pub use params::{ScalingMethod, WelchResult, WelchWindow, default_segmentation};
pub use plan::{WelchPlan, WelchPlanView};
