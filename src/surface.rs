use vstd::prelude::*;

use crate::surfel::Surfel;

verus! {

/// An immutable, spatially indexed collection of surface samples.
///
/// The samples keep the order in which they were added; `spatial_idx` maps
/// the position of the sample at each index to that index, so that a spatial
/// query resolves to samples through `get`.
#[verifier::reject_recursive_types(S)]
pub struct Surface<S, I> {
    samples: Vec<S>,
    spatial_idx: I,
}

impl<S, I> Surface<S, I> {
    /// The samples of the surface, in insertion order.
    pub closed spec fn spec_samples(&self) -> Seq<S> {
        self.samples@
    }

    /// The spatial index over the sample positions.
    pub closed spec fn spec_index(&self) -> I {
        self.spatial_idx
    }

    pub(crate) fn from_parts(samples: Vec<S>, spatial_idx: I) -> (r: Self)
        ensures
            r.spec_samples() == samples@,
            r.spec_index() == spatial_idx,
    {
        Surface { samples, spatial_idx }
    }

    /// The number of samples.
    pub fn len(&self) -> (r: usize)
        ensures
            r == self.spec_samples().len(),
    {
        self.samples.len()
    }

    /// Whether the surface holds no samples.
    pub fn is_empty(&self) -> (r: bool)
        ensures
            r == (self.spec_samples().len() == 0),
    {
        self.samples.len() == 0
    }

    /// The sample at `idx`, the index that the spatial index reports for it,
    /// or `None` past the end.
    pub fn get(&self, idx: usize) -> (r: Option<&S>)
        ensures
            idx < self.spec_samples().len() ==> r == Some(&self.spec_samples()[idx as int]),
            idx >= self.spec_samples().len() ==> r is None,
    {
        if idx < self.samples.len() {
            Some(&self.samples[idx])
        } else {
            None
        }
    }

    /// All samples, in insertion order.
    pub fn samples(&self) -> (r: &Vec<S>)
        ensures
            r@ == self.spec_samples(),
    {
        &self.samples
    }

    /// The spatial index over the sample positions.
    pub fn spatial_index(&self) -> (r: &I)
        ensures
            *r == self.spec_index(),
    {
        &self.spatial_idx
    }
}

impl<V, D, I> Surface<Surfel<V, D>, I> {
    /// Mutable access to the data of the surfel at `idx`. Nothing else
    /// changes: not the other surfels, not the vertex, not the spatial index.
    pub fn data_mut(&mut self, idx: usize) -> (r: &mut D)
        requires
            idx < old(self).spec_samples().len(),
        ensures
            *r == old(self).spec_samples()[idx as int].spec_data(),
            final(self).spec_index() == old(self).spec_index(),
            final(self).spec_samples().len() == old(self).spec_samples().len(),
            final(self).spec_samples()[idx as int].spec_vertex() == old(self).spec_samples()[idx as int].spec_vertex(),
            final(self).spec_samples()[idx as int].spec_data() == *final(r),
            forall|j: int| 0 <= j < old(self).spec_samples().len() && j != idx ==>
                #[trigger] final(self).spec_samples()[j] == old(self).spec_samples()[j],
    {
        self.samples[idx].data_mut()
    }
}

} // verus!
