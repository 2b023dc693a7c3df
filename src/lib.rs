//! Manages collections of points that represent a surface.
//!
//! Provides functionality for building and searching surfaces made of
//! surface elements ("surfels"): sampled points that carry a vertex and an
//! associated data payload.

mod builder;
mod sampling;
mod surface;
mod surfel;

pub use builder::SurfaceBuilder;
pub use sampling::{SamplingError, SurfelSampling, DEFAULT_MIN_DISTANCE_BITS};
pub use surface::Surface;
pub use surfel::Surfel;
