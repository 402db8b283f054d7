//! The one piece of geometry there is: a quad that covers the surface.

use vstd::prelude::*;

verus! {

/// The corners of the quad, as the sequence the vertex buffer holds.
pub open spec fn quad() -> Seq<(i8, i8)> {
    seq![(-1i8, -1i8), (-1i8, 1i8), (1i8, -1i8), (1i8, 1i8)]
}

/// The corners of the two triangles that make up the quad, as places in
/// `quad()`: a list of triangles, three entries each.
pub open spec fn quad_triangles() -> Seq<u8> {
    seq![0u8, 1u8, 2u8, 1u8, 2u8, 3u8]
}

/// The four corners of the square from -1 to 1 in both directions, which is
/// the whole surface in clip space.
pub fn quad_corners() -> (corners: [(i8, i8); 4])
    ensures
        corners@ == quad(),
{
    [(-1, -1), (-1, 1), (1, -1), (1, 1)]
}

/// The index buffer: two triangles over the four corners.
pub fn quad_indices() -> (indices: [u8; 6])
    ensures
        indices@ == quad_triangles(),
        forall|i: int| 0 <= i < 6 ==> indices[i] < quad().len(),
{
    [0, 1, 2, 1, 2, 3]
}

} // verus!
