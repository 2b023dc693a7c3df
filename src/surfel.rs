use vstd::prelude::*;

verus! {

/// A surface element: a vertex sampled on a surface together with
/// additional data associated with it.
///
/// The vertex is fixed once the surfel exists; the data can be changed in
/// place through `data_mut`.
pub struct Surfel<V, D> {
    /// An interpolated vertex at the surfel position
    vertex: V,
    /// Additional associated data of the surfel
    data: D,
}

impl<V, D> Surfel<V, D> {
    /// The vertex held by the surfel.
    pub closed spec fn spec_vertex(&self) -> V {
        self.vertex
    }

    /// The data payload held by the surfel.
    pub closed spec fn spec_data(&self) -> D {
        self.data
    }

    pub fn new(vertex: V, data: D) -> (r: Self)
        ensures
            r.spec_vertex() == vertex,
            r.spec_data() == data,
    {
        Surfel { vertex, data }
    }

    pub fn vertex(&self) -> (r: &V)
        ensures
            *r == self.spec_vertex(),
    {
        &self.vertex
    }

    pub fn data(&self) -> (r: &D)
        ensures
            *r == self.spec_data(),
    {
        &self.data
    }

    /// Gives mutable access to the payload; the vertex stays as it was.
    pub fn data_mut(&mut self) -> (r: &mut D)
        ensures
            *r == old(self).spec_data(),
            final(self).spec_vertex() == old(self).spec_vertex(),
            final(self).spec_data() == *final(r),
    {
        &mut self.data
    }
}

} // verus!
