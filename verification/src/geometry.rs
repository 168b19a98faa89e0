//! The cube mesh data.
//!
//! One static mesh: a unit cube of eight vertices drawn with thirty-six
//! 16-bit indices, three per triangle, two triangles per face. The index
//! list is fixed at construction and every index refers to one of the eight
//! vertices; the vertex positions and colors themselves are device data and
//! live with the buffer uploads outside the library.

use vstd::prelude::*;

verus! {

/// How many vertices the cube mesh has.
pub const CUBE_VERTEX_COUNT: u16 = 8;

/// How many indices the cube mesh is drawn with.
pub const CUBE_INDEX_COUNT: u32 = 36;

/// The cube's index list: each face, front, back, left, right, top, bottom,
/// is two counter-clockwise triangles.
pub open spec fn cube_index_list() -> Seq<u16> {
    seq![
        0u16, 1, 2, 2, 3, 0,
        4, 6, 5, 6, 4, 7,
        4, 0, 3, 3, 7, 4,
        1, 5, 6, 6, 2, 1,
        3, 2, 6, 6, 7, 3,
        4, 5, 1, 1, 0, 4,
    ]
}

/// Every index of the cube refers to one of its eight vertices.
pub proof fn lemma_cube_indices_in_bounds()
    ensures
        forall|i: int| 0 <= i < cube_index_list().len()
            ==> #[trigger] cube_index_list()[i] < CUBE_VERTEX_COUNT,
{
    assert forall|i: int| 0 <= i < cube_index_list().len()
        implies #[trigger] cube_index_list()[i] < CUBE_VERTEX_COUNT by {
        assert(cube_index_list().len() == 36);
    }
}

/// Builds the cube's index buffer contents.
pub fn cube_indices() -> (r: Vec<u16>)
    ensures
        r@ == cube_index_list(),
        r@.len() == CUBE_INDEX_COUNT,
        forall|i: int| 0 <= i < r@.len() ==> #[trigger] r@[i] < CUBE_VERTEX_COUNT,
{
    let r: Vec<u16> = vec![
        0u16, 1, 2, 2, 3, 0,
        4, 6, 5, 6, 4, 7,
        4, 0, 3, 3, 7, 4,
        1, 5, 6, 6, 2, 1,
        3, 2, 6, 6, 7, 3,
        4, 5, 1, 1, 0, 4,
    ];
    proof {
        assert(r@ =~= cube_index_list());
        lemma_cube_indices_in_bounds();
    }
    r
}

} // verus!
