//! Index data of the unit cube that bounds one brick of the distance field.
//!
//! A corner of the cube is a number below eight. Its three low bits say on
//! which side of the cube the corner lies along X, Y and Z.

use vstd::prelude::*;

verus! {

/// Number of indices of the cube: six faces of two triangles each.
pub const CUBE_INDEX_COUNT: usize = 36;

/// The two triangles of the face that holds `corner` and is spanned from there
/// by the offsets `du` and `dv`.
pub open spec fn face_indices(corner: int, du: int, dv: int) -> Seq<int> {
    seq![corner, corner + du, corner + dv, corner + dv, corner + du, corner + du + dv]
}

/// Bit of the axis that the faces of pair `axis` are perpendicular to.
pub open spec fn axis_bit(axis: int) -> int {
    if axis == 0 {
        1
    } else if axis == 1 {
        2
    } else {
        4
    }
}

/// Bit of the axis that follows `axis` in the cycle X, Y, Z.
pub open spec fn next_axis_bit(axis: int) -> int {
    axis_bit((axis + 1) % 3)
}

/// Bit of the axis that precedes `axis` in the cycle X, Y, Z.
pub open spec fn prev_axis_bit(axis: int) -> int {
    axis_bit((axis + 2) % 3)
}

/// The near face and the far face perpendicular to `axis`. The near face is
/// wound the other way round, so that both face outwards.
pub open spec fn axis_indices(axis: int) -> Seq<int> {
    face_indices(0, prev_axis_bit(axis), next_axis_bit(axis)) + face_indices(
        axis_bit(axis),
        next_axis_bit(axis),
        prev_axis_bit(axis),
    )
}

/// The indices of the first `axes` pairs of faces.
pub open spec fn cube_index_prefix(axes: nat) -> Seq<int>
    decreases axes,
{
    if axes == 0 {
        Seq::empty()
    } else {
        cube_index_prefix((axes - 1) as nat) + axis_indices(axes - 1)
    }
}

/// The index list of the whole cube.
pub open spec fn cube_index_seq() -> Seq<int> {
    cube_index_prefix(3)
}

/// The index list of a vector, as mathematical integers.
pub open spec fn index_values(indices: Seq<u32>) -> Seq<int> {
    indices.map_values(|x: u32| x as int)
}

/// Index lists with the same values are the same list.
pub proof fn lemma_index_values_injective(a: Seq<u32>, b: Seq<u32>)
    requires
        index_values(a) == index_values(b),
    ensures
        a == b,
{
    assert(a.len() == index_values(a).len());
    assert(b.len() == index_values(b).len());
    assert forall|i: int| 0 <= i < a.len() implies a[i] == b[i] by {
        assert(index_values(a)[i] == a[i] as int);
        assert(index_values(b)[i] == b[i] as int);
    }
    assert(a =~= b);
}

/// The cube's index list written out.
pub proof fn lemma_cube_index_seq_literal()
    ensures
        cube_index_seq() =~= seq![
            0, 4, 2, 2, 4, 6,
            1, 3, 5, 5, 3, 7,
            0, 1, 4, 4, 1, 5,
            2, 6, 3, 3, 6, 7,
            0, 2, 1, 1, 2, 3,
            4, 5, 6, 6, 5, 7,
        ],
{
    reveal_with_fuel(cube_index_prefix, 4);
}

/// The cube has thirty-six indices and each of them names one of its eight
/// corners.
pub proof fn lemma_cube_indices_in_range()
    ensures
        cube_index_seq().len() == CUBE_INDEX_COUNT,
        forall|i: int| 0 <= i < cube_index_seq().len() ==> 0 <= #[trigger] cube_index_seq()[i] < 8,
{
    lemma_cube_index_seq_literal();
}

/// Every face lies in one side plane of the cube: the six indices of face `f`
/// agree in the bit of the axis the face is perpendicular to, and that bit is
/// set exactly on the far face of the pair.
pub proof fn lemma_cube_faces_are_planar()
    ensures
        forall|i: int|
            0 <= i < 36 ==> ((#[trigger] cube_index_seq()[i] / axis_bit(i / 12)) % 2 == 1 <==> (i
                / 6) % 2 == 1),
{
    lemma_cube_index_seq_literal();
}

/// No triangle of the cube is degenerate: its three corners differ.
pub proof fn lemma_cube_triangles_are_proper()
    ensures
        forall|t: int|
            0 <= t < 12 ==> {
                let a = #[trigger] cube_index_seq()[3 * t];
                let b = cube_index_seq()[3 * t + 1];
                let c = cube_index_seq()[3 * t + 2];
                a != b && b != c && a != c
            },
{
    lemma_cube_index_seq_literal();
}

/// Appends the two triangles of one face.
fn push_face(res: &mut Vec<u32>, corner: u32, du: u32, dv: u32)
    requires
        corner + du + dv < 8,
    ensures
        index_values(final(res)@) =~= index_values(old(res)@) + face_indices(
            corner as int,
            du as int,
            dv as int,
        ),
{
    res.push(corner);
    res.push(corner + du);
    res.push(corner + dv);
    res.push(corner + dv);
    res.push(corner + du);
    res.push(corner + du + dv);
}

/// Builds the index list of the unit cube: three pairs of opposite faces, six
/// indices a face.
pub fn cube_indices() -> (res: Vec<u32>)
    ensures
        index_values(res@) == cube_index_seq(),
        res@.len() == CUBE_INDEX_COUNT,
        forall|i: int| 0 <= i < res@.len() ==> #[trigger] res@[i] < 8,
{
    let mut res: Vec<u32> = Vec::with_capacity(CUBE_INDEX_COUNT);
    let bits: [u32; 3] = [1, 2, 4];
    let mut axis: usize = 0;
    while axis < 3
        invariant
            axis <= 3,
            bits@ =~= seq![1u32, 2u32, 4u32],
            index_values(res@) =~= cube_index_prefix(axis as nat),
        decreases 3 - axis,
    {
        let normal: u32 = bits[axis];
        let next: u32 = bits[(axis + 1) % 3];
        let prev: u32 = bits[(axis + 2) % 3];
        push_face(&mut res, 0, prev, next);
        push_face(&mut res, normal, next, prev);
        axis += 1;
    }
    proof {
        lemma_cube_indices_in_range();
        assert forall|i: int| 0 <= i < res@.len() implies #[trigger] res@[i] < 8 by {
            assert(index_values(res@)[i] == res@[i] as int);
        }
    }
    res
}

} // verus!
