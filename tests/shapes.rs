use draw::object::{Circle, Cube, Cylinder, Object, Sphere, Square, Tetrahedron, Triangle};
use draw::sample::{Facing, Place, Sample, Turn};

fn turn(num: i32, den: u32) -> Turn {
    Turn::new(num, den)
}

fn rim(num: i32, den: u32, lift: i8) -> Place {
    Place::Rim { azimuth: turn(num, den), lift }
}

const UP: Facing = Facing::Axis { x: 0, y: 0, z: 1 };
const DOWN: Facing = Facing::Axis { x: 0, y: 0, z: -1 };

#[test]
fn sphere_has_6144_vertices() {
    let mut o = Object::<Sphere>::new();
    o.generate_sphere_nodes();
    assert_eq!(o.nodes.len(), 6144);
}

#[test]
fn cube_has_36_vertices() {
    let mut o = Object::<Cube>::new();
    o.generate_cube_nodes();
    assert_eq!(o.nodes.len(), 36);
}

#[test]
fn tetrahedron_has_12_vertices() {
    let mut o = Object::<Tetrahedron>::new();
    o.generate_tetrahedron_nodes();
    assert_eq!(o.nodes.len(), 12);
}

#[test]
fn cylinder_has_four_triangles_per_sector() {
    let mut o = Object::<Cylinder>::new();
    o.generate_cylinder_nodes();
    assert_eq!(o.nodes.len(), 32 * 12);
}

#[test]
fn circle_has_192_vertices() {
    let mut o = Object::<Circle>::new();
    o.generate_circle_nodes();
    assert_eq!(o.nodes.len(), 192);
}

#[test]
fn triangle_has_6_vertices() {
    let mut o = Object::<Triangle>::new();
    o.generate_triangle_nodes();
    assert_eq!(o.nodes.len(), 6);
}

#[test]
fn square_has_12_vertices() {
    let mut o = Object::<Square>::new();
    o.generate_square_nodes();
    assert_eq!(o.nodes.len(), 12);
}

#[test]
fn generating_twice_duplicates_the_vertices() {
    let mut o = Object::<Triangle>::new();
    o.generate_triangle_nodes();
    o.generate_triangle_nodes();
    assert_eq!(o.nodes.len(), 12);
    assert_eq!(o.nodes[..6], o.nodes[6..]);
}

#[test]
fn sphere_first_vertex_is_at_zero_inclination() {
    let mut o = Object::<Sphere>::new();
    o.generate_sphere_nodes();
    let first = Sample::new(
        Place::Polar { inclination: turn(0, 32), azimuth: turn(0, 32) },
        Facing::Polar { inclination: turn(0, 32), azimuth: turn(0, 32) },
    );
    assert_eq!(o.nodes[0], first);
}

#[test]
fn sphere_cell_corners() {
    let mut o = Object::<Sphere>::new();
    o.generate_sphere_nodes();
    // the cell at slice 2, stack 5 starts at vertex 6 * (32 * 2 + 5)
    let base = 6 * (32 * 2 + 5);
    let at = |s: i32, t: i32| Place::Polar { inclination: turn(s, 32), azimuth: turn(t, 32) };
    let places: Vec<Place> = o.nodes[base..base + 6].iter().map(|n| n.place).collect();
    assert_eq!(places, vec![at(2, 5), at(3, 5), at(3, 6), at(2, 5), at(3, 6), at(2, 6)]);
    let last = o.nodes[6143];
    assert_eq!(last.place, at(31, 32));
}

#[test]
fn cube_positive_x_face_lies_at_plus_scale() {
    let mut o = Object::<Cube>::new();
    o.generate_cube_nodes();
    let face: Vec<&Sample> = o.nodes.iter().filter(|n| n.facing == Facing::Axis { x: 1, y: 0, z: 0 }).collect();
    assert_eq!(face.len(), 6);
    for n in face {
        match n.place {
            Place::Corner { x, .. } => assert_eq!(x, 1),
            _ => panic!("cube vertex that is not a corner"),
        }
    }
}

#[test]
fn cube_faces_are_planar_and_outward() {
    let mut o = Object::<Cube>::new();
    o.generate_cube_nodes();
    for face in 0..6 {
        let normal = o.nodes[6 * face].facing;
        let (nx, ny, nz) = match normal {
            Facing::Axis { x, y, z } => (x as i32, y as i32, z as i32),
            _ => panic!("cube normal that is not an axis"),
        };
        assert_eq!(nx * nx + ny * ny + nz * nz, 1);
        let corners: Vec<(i32, i32, i32)> = o.nodes[6 * face..6 * face + 6]
            .iter()
            .map(|n| {
                assert_eq!(n.facing, normal);
                match n.place {
                    Place::Corner { x, y, z } => (x as i32, y as i32, z as i32),
                    _ => panic!("cube vertex that is not a corner"),
                }
            })
            .collect();
        for &(x, y, z) in &corners {
            assert_eq!(x * nx + y * ny + z * nz, 1);
        }
        for t in 0..2 {
            let (a, b, c) = (corners[3 * t], corners[3 * t + 1], corners[3 * t + 2]);
            let u = (b.0 - a.0, b.1 - a.1, b.2 - a.2);
            let w = (c.0 - a.0, c.1 - a.1, c.2 - a.2);
            let cross = (u.1 * w.2 - u.2 * w.1, u.2 * w.0 - u.0 * w.2, u.0 * w.1 - u.1 * w.0);
            assert!(cross.0 * nx + cross.1 * ny + cross.2 * nz > 0);
        }
    }
}

#[test]
fn cube_first_face_looks_along_negative_x() {
    let mut o = Object::<Cube>::new();
    o.generate_cube_nodes();
    let n = Facing::Axis { x: -1, y: 0, z: 0 };
    let c = |x: i8, y: i8, z: i8| Sample::new(Place::Corner { x, y, z }, n);
    assert_eq!(
        o.nodes[..6].to_vec(),
        vec![c(-1, -1, -1), c(-1, -1, 1), c(-1, 1, 1), c(-1, -1, -1), c(-1, 1, 1), c(-1, 1, -1)]
    );
}

#[test]
fn tetrahedron_sides_meet_at_the_apex() {
    let mut o = Object::<Tetrahedron>::new();
    o.generate_tetrahedron_nodes();
    let base = |i: i32| Place::TetraBase { azimuth: turn(-i, 3) };
    for i in 0..3 {
        let side = Facing::TetraSide { first: turn(-i, 3), second: turn(-(i + 1), 3) };
        let k = 3 * i as usize;
        assert_eq!(o.nodes[k], Sample::new(base(i), side));
        assert_eq!(o.nodes[k + 1], Sample::new(Place::Apex, side));
        assert_eq!(o.nodes[k + 2], Sample::new(base(i + 1), side));
    }
    for i in 0..3 {
        assert_eq!(o.nodes[9 + i as usize], Sample::new(base(i), DOWN));
    }
}

#[test]
fn cylinder_first_sector() {
    let mut o = Object::<Cylinder>::new();
    o.generate_cylinder_nodes();
    let side = Facing::Chord { first: turn(0, 32), second: turn(1, 32) };
    let s = Sample::new;
    assert_eq!(
        o.nodes[..12].to_vec(),
        vec![
            s(rim(0, 32, 1), UP),
            s(rim(1, 32, 1), UP),
            s(Place::Hub { lift: 1 }, UP),
            s(rim(0, 32, 1), side),
            s(rim(0, 32, -1), side),
            s(rim(1, 32, 1), side),
            s(rim(1, 32, 1), side),
            s(rim(0, 32, -1), side),
            s(rim(1, 32, -1), side),
            s(rim(1, 32, -1), DOWN),
            s(rim(0, 32, -1), DOWN),
            s(Place::Hub { lift: -1 }, DOWN),
        ]
    );
}

#[test]
fn circle_last_sector_closes_the_disc() {
    let mut o = Object::<Circle>::new();
    o.generate_circle_nodes();
    let s = Sample::new;
    assert_eq!(
        o.nodes[186..].to_vec(),
        vec![
            s(rim(31, 32, 0), DOWN),
            s(Place::Hub { lift: 0 }, DOWN),
            s(rim(32, 32, 0), DOWN),
            s(rim(32, 32, 0), UP),
            s(Place::Hub { lift: 0 }, UP),
            s(rim(31, 32, 0), UP),
        ]
    );
}

#[test]
fn triangle_outline_both_ways() {
    let mut o = Object::<Triangle>::new();
    o.generate_triangle_nodes();
    let s = Sample::new;
    assert_eq!(
        o.nodes,
        vec![
            s(rim(0, 3, 0), UP),
            s(rim(1, 3, 0), UP),
            s(rim(2, 3, 0), UP),
            s(rim(0, 3, 0), DOWN),
            s(rim(-1, 3, 0), DOWN),
            s(rim(-2, 3, 0), DOWN),
        ]
    );
}

#[test]
fn square_outline_in_two_groups() {
    let mut o = Object::<Square>::new();
    o.generate_square_nodes();
    let azimuths: Vec<i32> = o
        .nodes
        .iter()
        .map(|n| match n.place {
            Place::Rim { azimuth, lift } => {
                assert_eq!(lift, 0);
                assert_eq!(azimuth.den, 4);
                azimuth.num
            },
            _ => panic!("square vertex off the rim"),
        })
        .collect();
    assert_eq!(azimuths, vec![0, 1, 2, 2, 3, 4, 0, -1, -2, -2, -3, -4]);
    assert!(o.nodes[..6].iter().all(|n| n.facing == UP));
    assert!(o.nodes[6..].iter().all(|n| n.facing == DOWN));
}
