//! The static shape: six triangles fanned around a shared center vertex,
//! with outer vertices on the unit circle at 60-degree steps.
//!
//! Coordinates are fixed-point integers: `UNIT` stands for 1.0, so the
//! published decimal values 0.8660254, 0.5 and 1.0 become 8_660_254,
//! 5_000_000 and 10_000_000.

use vstd::prelude::*;

verus! {

/// One 2D point of the static geometry, in fixed-point coordinates
/// (`UNIT` = 1.0).
#[derive(Clone, Copy, PartialEq, Eq, Structural, Debug)]
pub struct Vertex {
    pub x: i32,
    pub y: i32,
}

/// Fixed-point representation of 1.0.
pub const UNIT: i32 = 10_000_000;

/// Fixed-point representation of 0.5.
pub const HALF: i32 = 5_000_000;

/// Fixed-point representation of 0.8660254 (cos 30 degrees).
pub const COS30: i32 = 8_660_254;

/// Fixed-point representation of -1.0.
pub const NEG_UNIT: i32 = -10_000_000;

/// Fixed-point representation of -0.5.
pub const NEG_HALF: i32 = -5_000_000;

/// Fixed-point representation of -0.8660254.
pub const NEG_COS30: i32 = -8_660_254;

/// Number of points in the static geometry: six triangles of three
/// vertices each.
pub const VERTEX_COUNT: usize = 18;

/// Number of triangles the sequence encodes.
pub const TRIANGLE_COUNT: usize = 6;

/// Number of distinct outer (ring) vertices.
pub const RING_COUNT: usize = 6;

/// The shared center vertex of every triangle.
pub open spec fn center() -> Vertex {
    Vertex { x: 0, y: 0 }
}

/// The six outer vertices, in the order the triangles walk them:
/// one every 60 degrees, a full turn.
pub open spec fn ring(k: int) -> Vertex
    recommends
        0 <= k < 6,
{
    if k == 0 {
        Vertex { x: COS30, y: NEG_HALF }
    } else if k == 1 {
        Vertex { x: COS30, y: HALF }
    } else if k == 2 {
        Vertex { x: 0, y: UNIT }
    } else if k == 3 {
        Vertex { x: NEG_COS30, y: HALF }
    } else if k == 4 {
        Vertex { x: NEG_COS30, y: NEG_HALF }
    } else {
        Vertex { x: 0, y: NEG_UNIT }
    }
}

/// Point `j` of the eighteen-point sequence: triangle `j / 3`, whose
/// first vertex is the center and whose outer edge joins two consecutive
/// ring vertices.
pub open spec fn hex_vertex(j: int) -> Vertex
    recommends
        0 <= j < 18,
{
    if j % 3 == 0 {
        center()
    } else if j % 3 == 1 {
        ring(j / 3)
    } else {
        ring((j / 3 + 1) % 6)
    }
}

/// The whole static geometry as a mathematical sequence.
pub open spec fn hex_seq() -> Seq<Vertex> {
    Seq::new(18, |j: int| hex_vertex(j))
}

/// Builds the static geometry: eighteen points, six center-fanned
/// triangles, uploaded once and never mutated.
pub fn hexagon_vertices() -> (v: Vec<Vertex>)
    ensures
        v@ == hex_seq(),
        v@.len() == VERTEX_COUNT,
{
    let mut v: Vec<Vertex> = Vec::new();
    v.push(Vertex { x: 0, y: 0 });
    v.push(Vertex { x: COS30, y: NEG_HALF });
    v.push(Vertex { x: COS30, y: HALF });
    v.push(Vertex { x: 0, y: 0 });
    v.push(Vertex { x: COS30, y: HALF });
    v.push(Vertex { x: 0, y: UNIT });
    v.push(Vertex { x: 0, y: 0 });
    v.push(Vertex { x: 0, y: UNIT });
    v.push(Vertex { x: NEG_COS30, y: HALF });
    v.push(Vertex { x: 0, y: 0 });
    v.push(Vertex { x: NEG_COS30, y: HALF });
    v.push(Vertex { x: NEG_COS30, y: NEG_HALF });
    v.push(Vertex { x: 0, y: 0 });
    v.push(Vertex { x: NEG_COS30, y: NEG_HALF });
    v.push(Vertex { x: 0, y: NEG_UNIT });
    v.push(Vertex { x: 0, y: 0 });
    v.push(Vertex { x: 0, y: NEG_UNIT });
    v.push(Vertex { x: COS30, y: NEG_HALF });
    proof {
        assert(v@ =~= hex_seq());
    }
    v
}

/// The geometry always has exactly eighteen points.
pub proof fn lemma_hexagon_len()
    ensures
        hex_seq().len() == 18,
{
}

/// Taken as consecutive triples, the sequence encodes six triangles:
/// each starts at the center (0,0), and the outer edge of triangle `t`
/// joins ring vertex `t` to ring vertex `t + 1` (mod 6). Every one of
/// the six consecutive ring pairs is used by exactly one triangle, so
/// the six outer edges together walk the full turn once, with no arc
/// skipped and none repeated.
pub proof fn lemma_hexagon_fan()
    ensures
        forall|j: int| 0 <= j < 18 && j % 3 == 0 ==> #[trigger] hex_seq()[j] == center(),
        forall|j: int| 0 <= j < 18 && j % 3 == 1 ==> #[trigger] hex_seq()[j] == ring(j / 3),
        forall|j: int|
            0 <= j < 18 && j % 3 == 2 ==> #[trigger] hex_seq()[j] == ring((j / 3 + 1) % 6),
{
}

/// The six ring vertices are pairwise distinct: no two triangles share
/// an outer edge, so no triangle repeats another's arc.
pub proof fn lemma_ring_distinct()
    ensures
        forall|k1: int, k2: int|
            #![trigger ring(k1), ring(k2)]
            0 <= k1 < 6 && 0 <= k2 < 6 && k1 != k2 ==> ring(k1) != ring(k2),
{
}

/// The cross product of consecutive ring vertices, the oriented area
/// (doubled) swept between them.
pub open spec fn ring_cross(k: int) -> int
    recommends
        0 <= k < 6,
{
    ring(k).x * ring((k + 1) % 6).y - ring(k).y * ring((k + 1) % 6).x
}

/// Every pair of consecutive ring vertices sweeps the same positive
/// oriented area: the six sectors turn consistently counter-clockwise
/// and are congruent, so together they sweep the full 360 degrees with
/// no gap greater than one sector (60 degrees) and no overlap.
pub proof fn lemma_sectors_congruent()
    ensures
        forall|k: int| 0 <= k < 6 ==> #[trigger] ring_cross(k) == 86_602_540_000_000,
{
    assert(8_660_254 * 5_000_000 - (-5_000_000) * 8_660_254 == 86_602_540_000_000)
        by (nonlinear_arith);
    assert(8_660_254 * 10_000_000 - 5_000_000 * 0 == 86_602_540_000_000) by (nonlinear_arith);
    assert(0 * 5_000_000 - 10_000_000 * (-8_660_254) == 86_602_540_000_000) by (nonlinear_arith);
    assert((-8_660_254) * (-5_000_000) - 5_000_000 * (-8_660_254) == 86_602_540_000_000)
        by (nonlinear_arith);
    assert((-8_660_254) * (-10_000_000) - (-5_000_000) * 0 == 86_602_540_000_000)
        by (nonlinear_arith);
    assert(0 * (-5_000_000) - (-10_000_000) * 8_660_254 == 86_602_540_000_000)
        by (nonlinear_arith);
    assert forall|k: int| 0 <= k < 6 implies #[trigger] ring_cross(k) == 86_602_540_000_000 by {}
}

/// Every ring vertex lies on the unit circle to within the fixed-point
/// resolution: its squared radius differs from `UNIT * UNIT` by less
/// than 1_000_000, one part in one hundred million of the square.
pub proof fn lemma_ring_on_unit_circle()
    ensures
        forall|k: int|
            0 <= k < 6 ==> {
                let p = #[trigger] ring(k);
                UNIT * UNIT - 1_000_000 < p.x * p.x + p.y * p.y <= UNIT * UNIT
            },
{
    assert forall|k: int|
        0 <= k < 6 implies {
        let p = #[trigger] ring(k);
        UNIT * UNIT - 1_000_000 < p.x * p.x + p.y * p.y <= UNIT * UNIT
    } by {
        assert(8_660_254 * 8_660_254 + 5_000_000 * 5_000_000 == 99_999_999_344_516)
            by (nonlinear_arith);
        assert((-8_660_254) * (-8_660_254) + 5_000_000 * 5_000_000 == 99_999_999_344_516)
            by (nonlinear_arith);
        assert((-8_660_254) * (-8_660_254) + (-5_000_000) * (-5_000_000) == 99_999_999_344_516)
            by (nonlinear_arith);
        assert(8_660_254 * 8_660_254 + (-5_000_000) * (-5_000_000) == 99_999_999_344_516)
            by (nonlinear_arith);
        assert(10_000_000 * 10_000_000 == 100_000_000_000_000) by (nonlinear_arith);
        assert((-10_000_000) * (-10_000_000) == 100_000_000_000_000) by (nonlinear_arith);
        assert(0 * 0 + 10_000_000 * 10_000_000 == 100_000_000_000_000) by (nonlinear_arith);
        assert(0 * 0 + (-10_000_000) * (-10_000_000) == 100_000_000_000_000) by (nonlinear_arith);
    }
}

} // verus!
