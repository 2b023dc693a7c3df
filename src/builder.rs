use vstd::prelude::*;

use crate::sampling::{SamplingError, SurfelSampling, DEFAULT_MIN_DISTANCE_BITS};
use crate::surface::Surface;
use crate::surfel::Surfel;

verus! {

/// Accumulates surface samples, either given directly or sampled from
/// triangles, and finally turns them into an immutable `Surface`.
#[verifier::reject_recursive_types(S)]
pub struct SurfaceBuilder<S> {
    samples: Vec<S>,
    sampling: SurfelSampling,
}

impl<S> SurfaceBuilder<S> {
    /// The samples accumulated so far, in the order they were added.
    pub closed spec fn spec_samples(&self) -> Seq<S> {
        self.samples@
    }

    /// The active sampling strategy.
    pub closed spec fn spec_sampling(&self) -> SurfelSampling {
        self.sampling
    }

    /// An empty builder that samples with `MinimumDistance(0.1)`.
    pub fn new() -> (r: Self)
        ensures
            r.spec_samples() == Seq::<S>::empty(),
            r.spec_sampling() == SurfelSampling::spec_default(),
    {
        SurfaceBuilder { samples: Vec::new(), sampling: SurfelSampling::MinimumDistance(DEFAULT_MIN_DISTANCE_BITS) }
    }

    /// The active sampling strategy.
    pub fn sampling_strategy(&self) -> (r: SurfelSampling)
        ensures
            r == self.spec_sampling(),
    {
        self.sampling
    }

    /// The samples accumulated so far.
    pub fn samples(&self) -> (r: &Vec<S>)
        ensures
            r@ == self.spec_samples(),
    {
        &self.samples
    }

    /// Adds the given surface samples at the end, in their order. Such samples can
    /// either be manually created or be the result of taking a subset of another
    /// surface.
    pub fn add_samples(self, samples: Vec<S>) -> (r: Self)
        ensures
            r.spec_samples() == self.spec_samples() + samples@,
            r.spec_sampling() == self.spec_sampling(),
    {
        let mut builder = self;
        let mut samples = samples;
        builder.samples.append(&mut samples);
        builder
    }

    /// Consumes the builder to create a new surface over the accumulated samples,
    /// searched through `spatial_idx`, which maps the position of the sample at
    /// each index to that index.
    pub fn build<I>(self, spatial_idx: I) -> (r: Surface<S, I>)
        ensures
            r.spec_samples() == self.spec_samples(),
            r.spec_index() == spatial_idx,
    {
        Surface::from_parts(self.samples, spatial_idx)
    }
}

/// Samples added to a new builder come out of `build` unchanged: the surface
/// holds exactly as many samples as were added, in the order they were given.
pub proof fn lemma_added_samples_preserved<S, I>(
    fresh: SurfaceBuilder<S>,
    samples: Seq<S>,
    filled: SurfaceBuilder<S>,
    surface: Surface<S, I>,
)
    requires
        fresh.spec_samples() == Seq::<S>::empty(),
        filled.spec_samples() == fresh.spec_samples() + samples,
        surface.spec_samples() == filled.spec_samples(),
    ensures
        surface.spec_samples().len() == samples.len(),
        forall|i: int| 0 <= i < samples.len() ==> #[trigger] surface.spec_samples()[i] == samples[i],
{
    assert(fresh.spec_samples() + samples =~= samples);
}

impl<V, D> SurfaceBuilder<Surfel<V, D>> {
    /// Sets the surface sampling strategy for converting meshes to surfels.
    /// Defaults to `SurfelSampling::MinimumDistance(0.1)` if never called.
    pub fn sampling(self, sampling: SurfelSampling) -> (r: Self)
        ensures
            r.spec_samples() == self.spec_samples(),
            r.spec_sampling() == sampling,
    {
        let mut builder = self;
        builder.sampling = sampling;
        builder
    }
}

impl<V, D: Clone> SurfaceBuilder<Surfel<V, D>> {
    /// Turns the vertices that the poisson disk sampler produced for the active
    /// strategy into surfels, each with its own clone of `prototype_surfel_data`,
    /// and appends them in their order.
    ///
    /// Fails with `NotImplemented`, and adds nothing, if the active strategy is
    /// `PerSqrUnit`.
    pub fn sample_triangles(self, sampled_vertices: Vec<V>, prototype_surfel_data: &D) -> (r: Result<Self, SamplingError>)
        ensures
            self.spec_sampling() is PerSqrUnit <==> r == Err::<Self, SamplingError>(SamplingError::NotImplemented),
            self.spec_sampling() is MinimumDistance <==> r is Ok,
            r matches Ok(b) ==> b.spec_sampling() == self.spec_sampling(),
            r matches Ok(b) ==> b.spec_samples().len() == self.spec_samples().len() + sampled_vertices@.len(),
            r matches Ok(b) ==> b.spec_samples().subrange(0, self.spec_samples().len() as int) == self.spec_samples(),
            r matches Ok(b) ==> forall|i: int| self.spec_samples().len() <= i < b.spec_samples().len() ==>
                #[trigger] b.spec_samples()[i].spec_vertex() == sampled_vertices@[i - self.spec_samples().len()],
            r matches Ok(b) ==> forall|i: int| self.spec_samples().len() <= i < b.spec_samples().len() ==>
                cloned(*prototype_surfel_data, #[trigger] b.spec_samples()[i].spec_data()),
    {
        match self.sampling {
            SurfelSampling::PerSqrUnit(_) => Err(SamplingError::NotImplemented),
            SurfelSampling::MinimumDistance(_) => {
                let mut builder = self;
                let ghost start = builder.samples@;
                let ghost vs = sampled_vertices@;
                let n: usize = sampled_vertices.len();
                let mut rest = sampled_vertices;
                let mut reversed: Vec<V> = Vec::new();
                while rest.len() > 0
                    invariant
                        rest.len() + reversed.len() == n,
                        n == vs.len(),
                        rest@ == vs.subrange(0, rest.len() as int),
                        forall|j: int| 0 <= j < reversed.len() ==> #[trigger] reversed@[j] == vs[n - 1 - j],
                    decreases rest.len(),
                {
                    match rest.pop() {
                        Some(v) => reversed.push(v),
                        None => {},
                    }
                }
                let mut k: usize = 0;
                while reversed.len() > 0
                    invariant
                        k + reversed.len() == n,
                        n == vs.len(),
                        forall|j: int| 0 <= j < reversed.len() ==> #[trigger] reversed@[j] == vs[n - 1 - j],
                        builder.samples@.len() == start.len() + k,
                        builder.samples@.subrange(0, start.len() as int) == start,
                        builder.sampling == self.sampling,
                        forall|i: int| 0 <= i < k ==>
                            #[trigger] builder.samples@[start.len() + i].spec_vertex() == vs[i],
                        forall|i: int| 0 <= i < k ==>
                            cloned(*prototype_surfel_data, #[trigger] builder.samples@[start.len() + i].spec_data()),
                    decreases reversed.len(),
                {
                    match reversed.pop() {
                        Some(v) => {
                            let data = prototype_surfel_data.clone();
                            assert(cloned(*prototype_surfel_data, data));
                            let surfel = Surfel::new(v, data);
                            builder.samples.push(surfel);
                            assert(builder.samples@[start.len() + k].spec_vertex() == vs[k as int]);
                            assert(cloned(*prototype_surfel_data, builder.samples@[start.len() + k].spec_data()));
                            k = k + 1;
                            assert(builder.samples@.subrange(0, start.len() as int) =~= start);
                        },
                        None => {},
                    }
                }
                assert forall|i: int| start.len() <= i < builder.samples@.len() implies
                    #[trigger] builder.samples@[i].spec_vertex() == vs[i - start.len()] by {
                    let j = i - start.len();
                    assert(builder.samples@[start.len() + j].spec_vertex() == vs[j]);
                }
                assert forall|i: int| start.len() <= i < builder.samples@.len() implies
                    cloned(*prototype_surfel_data, #[trigger] builder.samples@[i].spec_data()) by {
                    let j = i - start.len();
                    assert(cloned(*prototype_surfel_data, builder.samples@[start.len() + j].spec_data()));
                }
                Ok(builder)
            },
        }
    }
}

} // verus!
