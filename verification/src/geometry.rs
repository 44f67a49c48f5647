//! Geometry buffers: the index data and its validity against the
//! vertex array.
//!
//! The vertex array itself is floating-point data the host uploads
//! verbatim; what the renderer depends on is that every 16-bit index
//! names a valid vertex slot, and that the index buffer's byte length
//! is a multiple of four, as the graphics device requires.  An
//! out-of-range index is an authoring error caught at construction,
//! not a runtime condition.

use vstd::prelude::*;

verus! {

/// Every index names a slot below `vertex_count`.
pub open spec fn indices_in_bounds(indices: Seq<u16>, vertex_count: int) -> bool {
    forall|i: int| 0 <= i < indices.len() ==> (indices[i] as int) < vertex_count
}

/// The index data for one indexed draw over a fixed vertex array.
pub struct GeometryBuffer {
    vertex_count: usize,
    indices: Vec<u16>,
}

impl GeometryBuffer {
    /// How many vertex slots the index data may name.
    pub closed spec fn spec_vertex_count(self) -> int {
        self.vertex_count as int
    }

    /// The index data, in draw order.
    pub closed spec fn spec_indices(self) -> Seq<u16> {
        self.indices@
    }

    /// Every held index is in bounds.
    pub open spec fn wf(self) -> bool {
        indices_in_bounds(self.spec_indices(), self.spec_vertex_count())
    }

    /// Accepts the index data only when every index is in bounds;
    /// a single out-of-range index rejects the whole buffer.
    pub fn new(vertex_count: usize, indices: Vec<u16>) -> (r: Option<GeometryBuffer>)
        ensures
            indices_in_bounds(indices@, vertex_count as int) ==> (r matches Some(g)
                && g.spec_vertex_count() == vertex_count && g.spec_indices() == indices@
                && g.wf()),
            !indices_in_bounds(indices@, vertex_count as int) ==> r is None,
    {
        let n = indices.len();
        let mut i: usize = 0;
        while i < n
            invariant
                n == indices@.len(),
                0 <= i <= n,
                forall|j: int| 0 <= j < i ==> (indices@[j] as int) < vertex_count as int,
            decreases n - i,
        {
            if indices[i] as usize >= vertex_count {
                return None;
            }
            i += 1;
        }
        Some(GeometryBuffer { vertex_count, indices })
    }

    /// The number of indices one draw call covers.
    pub fn index_count(&self) -> (n: usize)
        ensures
            n == self.spec_indices().len(),
    {
        self.indices.len()
    }

    /// The index data as uploaded to the device, in draw order.
    pub fn index_data(&self) -> (r: &Vec<u16>)
        ensures
            r@ == self.spec_indices(),
    {
        &self.indices
    }
}

/// Pads index data to an even count of 16-bit entries, so the index
/// buffer's byte length is a multiple of four as the device requires:
/// an odd-length list gets one trailing zero index, an even-length
/// list is returned unchanged.  The zero pad stays in bounds for any
/// non-empty vertex array.
pub fn with_padding(indices: Vec<u16>) -> (r: Vec<u16>)
    ensures
        r@.len() % 2 == 0,
        indices@.len() % 2 == 0 ==> r@ == indices@,
        indices@.len() % 2 == 1 ==> r@ == indices@.push(0),
        forall|v: int|
            v > 0 && indices_in_bounds(indices@, v) ==> #[trigger] indices_in_bounds(r@, v),
{
    let mut out = indices;
    if out.len() % 2 == 1 {
        out.push(0);
    }
    out
}

} // verus!
