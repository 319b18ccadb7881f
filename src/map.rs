//! Expanding an indexed triangle mesh into the flat interleaved vertex array
//! that the renderer draws: for each index in order, seven components, the
//! position x and y, a depth, and the four channels of the fill colour.

use vstd::prelude::*;

verus! {

/// Components of one vertex in the flat array.
pub const VERTEX_STRIDE: usize = 7;

/// Position components at the start of each vertex.
pub const POSITION_COMPONENTS: usize = 3;

/// Colour components after the position.
pub const COLOR_COMPONENTS: usize = 4;

/// The seven components of one vertex.
pub open spec fn vertex_record<T>(p: (T, T), z: T, color: Seq<T>) -> Seq<T> {
    seq![p.0, p.1, z, color[0], color[1], color[2], color[3]]
}

/// The flat array for a list of indices into a list of positions.
pub open spec fn unrolled<T>(positions: Seq<(T, T)>, indices: Seq<u16>, z: T, color: Seq<T>) -> Seq<T>
    decreases indices.len(),
{
    if indices.len() == 0 {
        Seq::empty()
    } else {
        unrolled(positions, indices.drop_last(), z, color) + vertex_record(
            positions[indices.last() as int],
            z,
            color,
        )
    }
}

/// Whether every index points into the position list.
pub open spec fn indices_in_bounds<T>(positions: Seq<(T, T)>, indices: Seq<u16>) -> bool {
    forall|k: int| 0 <= k < indices.len() ==> (#[trigger] indices[k] as int) < positions.len()
}

/// Writes out, for every index in order, the position it points at, the
/// depth `z` and the fill colour, so that no index buffer is needed to draw.
pub fn unroll_vertices<T: Copy>(
    positions: &Vec<(T, T)>,
    indices: &Vec<u16>,
    z: T,
    color: [T; 4],
) -> (r: Vec<T>)
    requires
        indices_in_bounds(positions@, indices@),
    ensures
        r@ == unrolled(positions@, indices@, z, color@),
        r@.len() == VERTEX_STRIDE * indices@.len(),
{
    let mut vertices: Vec<T> = Vec::new();
    let n = indices.len();
    let mut i: usize = 0;
    while i < n
        invariant
            n == indices@.len(),
            i <= n,
            indices_in_bounds(positions@, indices@),
            vertices@ == unrolled(positions@, indices@.take(i as int), z, color@),
        decreases n - i,
    {
        let idx = indices[i];
        assert(indices@[i as int] == idx);
        let p = positions[idx as usize];
        let old_vertices = Ghost(vertices@);
        vertices.push(p.0);
        vertices.push(p.1);
        vertices.push(z);
        vertices.push(color[0]);
        vertices.push(color[1]);
        vertices.push(color[2]);
        vertices.push(color[3]);
        proof {
            assert(indices@.take(i + 1).drop_last() =~= indices@.take(i as int));
            assert(vertices@ =~= old_vertices@ + vertex_record(p, z, color@));
        }
        i = i + 1;
    }
    assert(indices@.take(n as int) =~= indices@);
    proof {
        lemma_unrolled_layout(positions@, indices@, z, color@);
    }
    vertices
}

/// The flat array holds seven components for each index; the vertex for the
/// `k`-th index holds the position it points at, the depth, and the fill
/// colour, which is thus the same for every vertex.
pub proof fn lemma_unrolled_layout<T>(positions: Seq<(T, T)>, indices: Seq<u16>, z: T, color: Seq<T>)
    requires
        indices_in_bounds(positions, indices),
    ensures
        unrolled(positions, indices, z, color).len() == VERTEX_STRIDE * indices.len(),
        forall|k: int|
            0 <= k < indices.len() ==> #[trigger] unrolled(positions, indices, z, color).subrange(
                7 * k,
                7 * k + 7,
            ) == vertex_record(positions[indices[k] as int], z, color),
    decreases indices.len(),
{
    if indices.len() > 0 {
        let front = indices.drop_last();
        let flat = unrolled(positions, indices, z, color);
        let earlier = unrolled(positions, front, z, color);
        assert(indices_in_bounds(positions, front)) by {
            assert forall|k: int| 0 <= k < front.len() implies (#[trigger] front[k] as int)
                < positions.len() by {
                assert(front[k] == indices[k]);
            }
        }
        lemma_unrolled_layout(positions, front, z, color);
        assert forall|k: int| 0 <= k < indices.len() implies #[trigger] flat.subrange(
            7 * k,
            7 * k + 7,
        ) == vertex_record(positions[indices[k] as int], z, color) by {
            if k < front.len() {
                assert(flat.subrange(7 * k, 7 * k + 7) =~= earlier.subrange(7 * k, 7 * k + 7));
            } else {
                assert(flat.subrange(7 * k, 7 * k + 7) =~= vertex_record(
                    positions[indices.last() as int],
                    z,
                    color,
                ));
            }
        }
    }
}

} // verus!
