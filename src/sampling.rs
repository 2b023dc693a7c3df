use vstd::prelude::*;

verus! {

/// Bit pattern of the single-precision number 0.1, the minimum distance
/// that a new builder samples with.
pub const DEFAULT_MIN_DISTANCE_BITS: u32 = 0x3dcc_cccd;

/// Enumerates surfel sampling strategies that differ in statistical properties and
/// performance characteristics.
///
/// Each variant holds its parameter as the bit pattern of an IEEE 754
/// single-precision number (`f32::to_bits`); the library only hands it on to
/// the sampler.
#[derive(Clone, Copy, Debug, PartialEq, Eq, Structural)]
pub enum SurfelSampling {
    /// Examines each triangle and randomly samples an amount of points proportional to the
    /// given point density per square unit in world space. Clumps together on smaller scales,
    /// but fast. Use `MinimumDistance` for better quality.
    PerSqrUnit(u32),
    /// Uses dart throwing on surfaces to generate a poisson disk set with the given
    /// minimum distance between points of the resulting set.
    /// Slower than `PerSqrUnit`, but surfels are more evenly spaced.
    MinimumDistance(u32),
}

/// Why sampling triangles into surfels failed.
#[derive(Clone, Copy, Debug, PartialEq, Eq, Structural)]
pub enum SamplingError {
    /// The active strategy has no implementation; no samples were produced.
    NotImplemented,
}

impl SurfelSampling {
    /// The strategy that a new builder starts with: minimum distance 0.1.
    pub open spec fn spec_default() -> SurfelSampling {
        SurfelSampling::MinimumDistance(DEFAULT_MIN_DISTANCE_BITS)
    }

    /// The minimum distance to hand to the poisson disk sampler, or the
    /// error for a strategy that is not implemented.
    pub open spec fn spec_min_distance(self) -> Result<u32, SamplingError> {
        match self {
            SurfelSampling::MinimumDistance(d) => Ok(d),
            SurfelSampling::PerSqrUnit(_) => Err(SamplingError::NotImplemented),
        }
    }

    /// The minimum distance that triangles are sampled with under this
    /// strategy; fails with `NotImplemented` under `PerSqrUnit`.
    pub fn min_distance(self) -> (r: Result<u32, SamplingError>)
        ensures
            r == self.spec_min_distance(),
    {
        match self {
            SurfelSampling::MinimumDistance(d) => Ok(d),
            SurfelSampling::PerSqrUnit(_) => Err(SamplingError::NotImplemented),
        }
    }
}

} // verus!
