use hexthing::geometry::{hexagon_vertices, Vertex, COS30, HALF, NEG_COS30, NEG_HALF, NEG_UNIT, UNIT};

#[test]
fn hexagon_has_eighteen_points() {
    let v = hexagon_vertices();
    assert_eq!(v.len(), 18);
}

#[test]
fn every_triangle_starts_at_center() {
    let v = hexagon_vertices();
    for t in 0..6 {
        assert_eq!(v[3 * t], Vertex { x: 0, y: 0 });
    }
}

#[test]
fn triangles_walk_consecutive_ring_pairs() {
    let v = hexagon_vertices();
    let ring = [
        Vertex { x: COS30, y: NEG_HALF },
        Vertex { x: COS30, y: HALF },
        Vertex { x: 0, y: UNIT },
        Vertex { x: NEG_COS30, y: HALF },
        Vertex { x: NEG_COS30, y: NEG_HALF },
        Vertex { x: 0, y: NEG_UNIT },
    ];
    for t in 0..6 {
        assert_eq!(v[3 * t + 1], ring[t]);
        assert_eq!(v[3 * t + 2], ring[(t + 1) % 6]);
    }
}

#[test]
fn ring_vertices_are_distinct() {
    let v = hexagon_vertices();
    for a in 0..6 {
        for b in 0..6 {
            if a != b {
                assert_ne!(v[3 * a + 1], v[3 * b + 1]);
            }
        }
    }
}

#[test]
fn sectors_sweep_equal_positive_area() {
    let v = hexagon_vertices();
    for t in 0..6 {
        let p = v[3 * t + 1];
        let q = v[3 * t + 2];
        let cross = p.x as i64 * q.y as i64 - p.y as i64 * q.x as i64;
        assert_eq!(cross, 86_602_540_000_000);
    }
}

#[test]
fn ring_vertices_lie_on_unit_circle() {
    let v = hexagon_vertices();
    let unit2 = UNIT as i64 * UNIT as i64;
    for t in 0..6 {
        let p = v[3 * t + 1];
        let r2 = p.x as i64 * p.x as i64 + p.y as i64 * p.y as i64;
        assert!(r2 <= unit2);
        assert!(r2 > unit2 - 1_000_000);
    }
}

#[test]
fn first_triangle_matches_published_values() {
    let v = hexagon_vertices();
    assert_eq!(v[0], Vertex { x: 0, y: 0 });
    assert_eq!(v[1], Vertex { x: 8_660_254, y: -5_000_000 });
    assert_eq!(v[2], Vertex { x: 8_660_254, y: 5_000_000 });
    assert_eq!(v[17], Vertex { x: 8_660_254, y: -5_000_000 });
}
