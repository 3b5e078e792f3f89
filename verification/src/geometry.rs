//! The geometry table: the eight corners of the cube (it spans
//! -1..=1 on every axis) and the 36-entry index table that groups them into
//! 12 triangles, two per face, wound counter-clockwise seen from outside.

use vstd::prelude::*;

verus! {

/// binary32 bit pattern of the colour channel value 0.0.
pub const COLOR_ZERO_BITS: u32 = 0x0000_0000;
/// binary32 bit pattern of the colour channel value 0.5.
pub const COLOR_HALF_BITS: u32 = 0x3F00_0000;
/// binary32 bit pattern of the colour channel value 1.0.
pub const COLOR_ONE_BITS: u32 = 0x3F80_0000;

/// One cube corner: the position is exact integer world coordinates, the
/// colour is three RGB channels carried as binary32 bit patterns.
#[derive(Clone, Copy, Debug)]
pub struct Vertex {
    pub position: [i8; 3],
    pub color: [u32; 3],
}

/// The eight corners of the cube, in the order the index table refers to
/// them: first the four corners of the +Z face, then the four of the -Z face.
pub open spec fn spec_cube_vertices() -> Seq<Vertex> {
    seq![
        Vertex { position: [-1i8, -1i8, 1i8], color: [COLOR_ONE_BITS, COLOR_ZERO_BITS, COLOR_ZERO_BITS] },
        Vertex { position: [1i8, -1i8, 1i8], color: [COLOR_ZERO_BITS, COLOR_ONE_BITS, COLOR_ZERO_BITS] },
        Vertex { position: [1i8, 1i8, 1i8], color: [COLOR_ZERO_BITS, COLOR_ZERO_BITS, COLOR_ONE_BITS] },
        Vertex { position: [-1i8, 1i8, 1i8], color: [COLOR_ONE_BITS, COLOR_ONE_BITS, COLOR_ZERO_BITS] },
        Vertex { position: [-1i8, -1i8, -1i8], color: [COLOR_ONE_BITS, COLOR_ZERO_BITS, COLOR_ONE_BITS] },
        Vertex { position: [-1i8, 1i8, -1i8], color: [COLOR_ZERO_BITS, COLOR_ONE_BITS, COLOR_ONE_BITS] },
        Vertex { position: [1i8, 1i8, -1i8], color: [COLOR_ONE_BITS, COLOR_ONE_BITS, COLOR_ONE_BITS] },
        Vertex { position: [1i8, -1i8, -1i8], color: [COLOR_HALF_BITS, COLOR_HALF_BITS, COLOR_HALF_BITS] },
    ]
}

/// The index table: 6 faces, each two triangles in the `(0,1,2)-(2,3,0)`
/// pattern, so that the triangles of a face share an edge.
pub open spec fn spec_cube_indices() -> Seq<u16> {
    seq![
        0u16, 1, 2, 2, 3, 0, // front (+Z)
        4, 5, 6, 6, 7, 4, // back (-Z)
        0, 4, 7, 7, 1, 0, // bottom (-Y)
        2, 6, 5, 5, 3, 2, // top (+Y)
        0, 3, 5, 5, 4, 0, // left (-X)
        1, 7, 6, 6, 2, 1, // right (+X)
    ]
}

/// The integer world coordinates of corner `c`.
pub open spec fn corner_coords(c: int) -> (int, int, int) {
    let v = spec_cube_vertices()[c];
    (v.position[0] as int, v.position[1] as int, v.position[2] as int)
}

/// The coordinates of the corner that entry `i` of the index table names.
pub open spec fn indexed_coords(i: int) -> (int, int, int) {
    corner_coords(spec_cube_indices()[i] as int)
}

pub open spec fn diff3(a: (int, int, int), b: (int, int, int)) -> (int, int, int) {
    (a.0 - b.0, a.1 - b.1, a.2 - b.2)
}

pub open spec fn sum3(a: (int, int, int), b: (int, int, int)) -> (int, int, int) {
    (a.0 + b.0, a.1 + b.1, a.2 + b.2)
}

pub open spec fn cross3(a: (int, int, int), b: (int, int, int)) -> (int, int, int) {
    (a.1 * b.2 - a.2 * b.1, a.2 * b.0 - a.0 * b.2, a.0 * b.1 - a.1 * b.0)
}

pub open spec fn dot3(a: (int, int, int), b: (int, int, int)) -> int {
    a.0 * b.0 + a.1 * b.1 + a.2 * b.2
}

/// Triangle `t` of the index table winds counter-clockwise seen from outside
/// the cube: the normal its winding induces (right-hand rule) points away
/// from the cube's centre, here witnessed by a positive dot product with the
/// triangle's (unnormalised) centroid.
pub open spec fn triangle_winds_outward(t: int) -> bool {
    let p0 = indexed_coords(3 * t);
    let p1 = indexed_coords(3 * t + 1);
    let p2 = indexed_coords(3 * t + 2);
    dot3(cross3(diff3(p1, p0), diff3(p2, p0)), sum3(sum3(p0, p1), p2)) > 0
}

/// Integrity of the index table: every entry names one of the eight corners;
/// within each face the two triangles share an edge (the `(0,1,2)-(2,3,0)`
/// pattern: the second triangle reuses the first one's third and first
/// entries); and every triangle winds counter-clockwise seen from outside,
/// the front-face convention the pipeline's back-face culling assumes.
pub proof fn lemma_cube_index_integrity()
    ensures
        spec_cube_indices().len() == 36,
        forall|i: int| 0 <= i < 36 ==> (#[trigger] spec_cube_indices()[i]) < 8,
        forall|f: int|
            0 <= f < 6 ==> (#[trigger] spec_cube_indices()[6 * f + 3]) == spec_cube_indices()[6 * f + 2]
                && spec_cube_indices()[6 * f + 5] == spec_cube_indices()[6 * f],
        forall|t: int| 0 <= t < 12 ==> #[trigger] triangle_winds_outward(t),
{
    assert forall|i: int| 0 <= i < 36 implies (#[trigger] spec_cube_indices()[i]) < 8 by {
        assert(spec_cube_indices()[i] < 8);
    }
    assert forall|f: int|
        0 <= f < 6 implies (#[trigger] spec_cube_indices()[6 * f + 3]) == spec_cube_indices()[6 * f + 2]
            && spec_cube_indices()[6 * f + 5] == spec_cube_indices()[6 * f] by {
        assert(spec_cube_indices()[6 * f + 3] == spec_cube_indices()[6 * f + 2]);
        assert(spec_cube_indices()[6 * f + 5] == spec_cube_indices()[6 * f]);
    }
    assert forall|t: int| 0 <= t < 12 implies #[trigger] triangle_winds_outward(t) by {
        if t == 0 {
            assert(indexed_coords(0) == (-1int, -1int, 1int));
            assert(indexed_coords(1) == (1int, -1int, 1int));
            assert(indexed_coords(2) == (1int, 1int, 1int));
            assert(triangle_winds_outward(0)) by (nonlinear_arith)
                requires
                    indexed_coords(0) == (-1int, -1int, 1int),
                    indexed_coords(1) == (1int, -1int, 1int),
                    indexed_coords(2) == (1int, 1int, 1int),
            ;
        } else if t == 1 {
            assert(indexed_coords(3) == (1int, 1int, 1int));
            assert(indexed_coords(4) == (-1int, 1int, 1int));
            assert(indexed_coords(5) == (-1int, -1int, 1int));
            assert(triangle_winds_outward(1)) by (nonlinear_arith)
                requires
                    indexed_coords(3) == (1int, 1int, 1int),
                    indexed_coords(4) == (-1int, 1int, 1int),
                    indexed_coords(5) == (-1int, -1int, 1int),
            ;
        } else if t == 2 {
            assert(indexed_coords(6) == (-1int, -1int, -1int));
            assert(indexed_coords(7) == (-1int, 1int, -1int));
            assert(indexed_coords(8) == (1int, 1int, -1int));
            assert(triangle_winds_outward(2)) by (nonlinear_arith)
                requires
                    indexed_coords(6) == (-1int, -1int, -1int),
                    indexed_coords(7) == (-1int, 1int, -1int),
                    indexed_coords(8) == (1int, 1int, -1int),
            ;
        } else if t == 3 {
            assert(indexed_coords(9) == (1int, 1int, -1int));
            assert(indexed_coords(10) == (1int, -1int, -1int));
            assert(indexed_coords(11) == (-1int, -1int, -1int));
            assert(triangle_winds_outward(3)) by (nonlinear_arith)
                requires
                    indexed_coords(9) == (1int, 1int, -1int),
                    indexed_coords(10) == (1int, -1int, -1int),
                    indexed_coords(11) == (-1int, -1int, -1int),
            ;
        } else if t == 4 {
            assert(indexed_coords(12) == (-1int, -1int, 1int));
            assert(indexed_coords(13) == (-1int, -1int, -1int));
            assert(indexed_coords(14) == (1int, -1int, -1int));
            assert(triangle_winds_outward(4)) by (nonlinear_arith)
                requires
                    indexed_coords(12) == (-1int, -1int, 1int),
                    indexed_coords(13) == (-1int, -1int, -1int),
                    indexed_coords(14) == (1int, -1int, -1int),
            ;
        } else if t == 5 {
            assert(indexed_coords(15) == (1int, -1int, -1int));
            assert(indexed_coords(16) == (1int, -1int, 1int));
            assert(indexed_coords(17) == (-1int, -1int, 1int));
            assert(triangle_winds_outward(5)) by (nonlinear_arith)
                requires
                    indexed_coords(15) == (1int, -1int, -1int),
                    indexed_coords(16) == (1int, -1int, 1int),
                    indexed_coords(17) == (-1int, -1int, 1int),
            ;
        } else if t == 6 {
            assert(indexed_coords(18) == (1int, 1int, 1int));
            assert(indexed_coords(19) == (1int, 1int, -1int));
            assert(indexed_coords(20) == (-1int, 1int, -1int));
            assert(triangle_winds_outward(6)) by (nonlinear_arith)
                requires
                    indexed_coords(18) == (1int, 1int, 1int),
                    indexed_coords(19) == (1int, 1int, -1int),
                    indexed_coords(20) == (-1int, 1int, -1int),
            ;
        } else if t == 7 {
            assert(indexed_coords(21) == (-1int, 1int, -1int));
            assert(indexed_coords(22) == (-1int, 1int, 1int));
            assert(indexed_coords(23) == (1int, 1int, 1int));
            assert(triangle_winds_outward(7)) by (nonlinear_arith)
                requires
                    indexed_coords(21) == (-1int, 1int, -1int),
                    indexed_coords(22) == (-1int, 1int, 1int),
                    indexed_coords(23) == (1int, 1int, 1int),
            ;
        } else if t == 8 {
            assert(indexed_coords(24) == (-1int, -1int, 1int));
            assert(indexed_coords(25) == (-1int, 1int, 1int));
            assert(indexed_coords(26) == (-1int, 1int, -1int));
            assert(triangle_winds_outward(8)) by (nonlinear_arith)
                requires
                    indexed_coords(24) == (-1int, -1int, 1int),
                    indexed_coords(25) == (-1int, 1int, 1int),
                    indexed_coords(26) == (-1int, 1int, -1int),
            ;
        } else if t == 9 {
            assert(indexed_coords(27) == (-1int, 1int, -1int));
            assert(indexed_coords(28) == (-1int, -1int, -1int));
            assert(indexed_coords(29) == (-1int, -1int, 1int));
            assert(triangle_winds_outward(9)) by (nonlinear_arith)
                requires
                    indexed_coords(27) == (-1int, 1int, -1int),
                    indexed_coords(28) == (-1int, -1int, -1int),
                    indexed_coords(29) == (-1int, -1int, 1int),
            ;
        } else if t == 10 {
            assert(indexed_coords(30) == (1int, -1int, 1int));
            assert(indexed_coords(31) == (1int, -1int, -1int));
            assert(indexed_coords(32) == (1int, 1int, -1int));
            assert(triangle_winds_outward(10)) by (nonlinear_arith)
                requires
                    indexed_coords(30) == (1int, -1int, 1int),
                    indexed_coords(31) == (1int, -1int, -1int),
                    indexed_coords(32) == (1int, 1int, -1int),
            ;
        } else {
            assert(indexed_coords(33) == (1int, 1int, -1int));
            assert(indexed_coords(34) == (1int, 1int, 1int));
            assert(indexed_coords(35) == (1int, -1int, 1int));
            assert(triangle_winds_outward(11)) by (nonlinear_arith)
                requires
                    indexed_coords(33) == (1int, 1int, -1int),
                    indexed_coords(34) == (1int, 1int, 1int),
                    indexed_coords(35) == (1int, -1int, 1int),
            ;
        }
    }
}

/// The cube's corner data, exactly as `spec_cube_vertices` lists it.
pub fn create_cube_vertices() -> (v: Vec<Vertex>)
    ensures
        v@ == spec_cube_vertices(),
        v@.len() == 8,
{
    let v: Vec<Vertex> = vec![
        Vertex { position: [-1i8, -1, 1], color: [COLOR_ONE_BITS, COLOR_ZERO_BITS, COLOR_ZERO_BITS] },
        Vertex { position: [1i8, -1, 1], color: [COLOR_ZERO_BITS, COLOR_ONE_BITS, COLOR_ZERO_BITS] },
        Vertex { position: [1i8, 1, 1], color: [COLOR_ZERO_BITS, COLOR_ZERO_BITS, COLOR_ONE_BITS] },
        Vertex { position: [-1i8, 1, 1], color: [COLOR_ONE_BITS, COLOR_ONE_BITS, COLOR_ZERO_BITS] },
        Vertex { position: [-1i8, -1, -1], color: [COLOR_ONE_BITS, COLOR_ZERO_BITS, COLOR_ONE_BITS] },
        Vertex { position: [-1i8, 1, -1], color: [COLOR_ZERO_BITS, COLOR_ONE_BITS, COLOR_ONE_BITS] },
        Vertex { position: [1i8, 1, -1], color: [COLOR_ONE_BITS, COLOR_ONE_BITS, COLOR_ONE_BITS] },
        Vertex { position: [1i8, -1, -1], color: [COLOR_HALF_BITS, COLOR_HALF_BITS, COLOR_HALF_BITS] },
    ];
    proof {
        assert(v@ =~= spec_cube_vertices());
    }
    v
}

/// The cube's index table, exactly as `spec_cube_indices` lists it.
pub fn create_cube_indices() -> (v: Vec<u16>)
    ensures
        v@ == spec_cube_indices(),
        v@.len() == 36,
{
    let v: Vec<u16> = vec![
        0, 1, 2, 2, 3, 0, // front
        4, 5, 6, 6, 7, 4, // back
        0, 4, 7, 7, 1, 0, // bottom
        2, 6, 5, 5, 3, 2, // top
        0, 3, 5, 5, 4, 0, // left
        1, 7, 6, 6, 2, 1, // right
    ];
    proof {
        assert(v@ =~= spec_cube_indices());
    }
    v
}

} // verus!
