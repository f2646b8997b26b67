//! The exact vertex lists of the generated solids, as spec functions of
//! nothing: a list depends only on the kind of solid. Laws about them follow.

use vstd::arithmetic::div_mod::lemma_fundamental_div_mod_converse;
use vstd::prelude::*;

use crate::sample::{Facing, Place, Sample, Turn};

verus! {

/// The constant normal `(0, 0, 1)`.
pub open spec fn up() -> Facing {
    Facing::Axis { x: 0, y: 0, z: 1 }
}

/// The constant normal `(0, 0, -1)`.
pub open spec fn down() -> Facing {
    Facing::Axis { x: 0, y: 0, z: -1i8 }
}

/// The point on the equator at azimuth `num / den` turn, raised by `lift`
/// half heights.
pub open spec fn rim(num: int, den: int, lift: int) -> Place {
    Place::Rim { azimuth: Turn { num: num as i32, den: den as u32 }, lift: lift as i8 }
}

/// Base corner `i` of the tetrahedron, at azimuth `-i / 3` turn.
pub open spec fn tetra_base(i: int) -> Place {
    Place::TetraBase { azimuth: Turn { num: -i as i32, den: 3 } }
}

/// Steps of a full turn that the sphere, cylinder and circle are cut into.
pub const SECTORS: i32 = 32;

/// Position `r` within block `q` of a sequence cut into blocks of `b`.
pub proof fn lemma_block_index(q: int, r: int, b: int)
    requires
        0 <= q,
        0 <= r < b,
    ensures
        (q * b + r) / b == q,
        (q * b + r) % b == r,
{
    lemma_fundamental_div_mod_converse(q * b + r, b, q, r);
}

/// A sequence cut into blocks of `b`: its prefix up to the end of block `q`
/// is the prefix up to its start followed by that block.
pub proof fn lemma_take_block(s: Seq<Sample>, b: int, q: int, block: Seq<Sample>)
    requires
        0 <= q,
        block.len() == b,
        q * b + b <= s.len(),
        forall|c: int| 0 <= c < b ==> s[q * b + c] == #[trigger] block[c],
    ensures
        s.take(q * b + b) == s.take(q * b) + block,
{
    assert(s.take(q * b + b) =~= s.take(q * b) + block);
}

/// The polar sample at `slice` and `stack` steps of inclination and azimuth,
/// with the matching polar normal.
pub open spec fn sphere_point(slice: int, stack: int) -> Sample {
    let inclination = Turn { num: slice as i32, den: 32 };
    let azimuth = Turn { num: stack as i32, den: 32 };
    Sample { place: Place::Polar { inclination, azimuth }, facing: Facing::Polar { inclination, azimuth } }
}

/// Corner `c` of the sphere cell at (`slice`, `stack`): the cell is covered by
/// the triangles (s, t), (s+1, t), (s+1, t+1) and (s, t), (s+1, t+1), (s, t+1).
pub open spec fn sphere_corner(slice: int, stack: int, c: int) -> Sample {
    let ds = if c == 1 || c == 2 || c == 4 {
        1int
    } else {
        0int
    };
    let dt = if c == 2 || c == 4 || c == 5 {
        1int
    } else {
        0int
    };
    sphere_point(slice + ds, stack + dt)
}

/// The `k`-th vertex of a sphere: six per cell, cells by slice, then by stack.
pub open spec fn sphere_sample(k: int) -> Sample {
    let cell = k / 6;
    sphere_corner(cell / 32, cell % 32, k % 6)
}

/// The two triangles of the sphere cell at (`slice`, `stack`).
pub open spec fn sphere_cell(slice: int, stack: int) -> Seq<Sample> {
    Seq::new(6, |c: int| sphere_corner(slice, stack, c))
}

/// The vertices of a sphere.
pub open spec fn sphere_plan() -> Seq<Sample> {
    Seq::new(6144, |k: int| sphere_sample(k))
}

/// The sphere's vertex list is its cells laid end to end.
pub proof fn lemma_sphere_cell(slice: int, stack: int)
    requires
        0 <= slice < 32,
        0 <= stack < 32,
    ensures
        sphere_plan().take(6 * (32 * slice + stack) + 6) == sphere_plan().take(6 * (32 * slice + stack)) + sphere_cell(
            slice,
            stack,
        ),
{
    let base = 6 * (32 * slice + stack);
    assert forall|c: int| 0 <= c < 6 implies #[trigger] sphere_plan()[base + c] == sphere_cell(slice, stack)[c] by {
        lemma_block_index(32 * slice + stack, c, 6);
        lemma_block_index(slice, stack, 32);
    }
    assert(sphere_plan().take(base + 6) =~= sphere_plan().take(base) + sphere_cell(slice, stack));
}

/// Face `face` of the cube (`0..6`) is perpendicular to axis `face % 3`; the
/// first three faces look along the negative axis, the last three along the
/// positive one.
pub open spec fn cube_normal(face: int, j: int) -> int {
    if j == face % 3 {
        if face < 3 {
            -1
        } else {
            1
        }
    } else {
        0
    }
}

/// Coordinate `j` (0 or 1) of the unit-cube corner emitted `c`-th on face
/// `face`: the face's own axis is fixed, the other two walk two triangles
/// that face outward.
pub open spec fn cube_bit(face: int, c: int, j: int) -> int {
    let i = face % 3;
    let neg = face < 3;
    let first = c == 2 || c == 4 || c == 5;
    let second = c == 1 || c == 2 || c == 4;
    if j == i {
        if neg {
            0
        } else {
            1
        }
    } else if j == (i + 1) % 3 {
        if (neg && first) || (!neg && second) {
            1
        } else {
            0
        }
    } else {
        if (neg && second) || (!neg && first) {
            1
        } else {
            0
        }
    }
}

/// The `k`-th vertex of a cube: six vertices per face, faces in the order of
/// `cube_normal`.
pub open spec fn cube_sample(k: int) -> Sample {
    let face = k / 6;
    let c = k % 6;
    Sample {
        place: Place::Corner {
            x: (2 * cube_bit(face, c, 0) - 1) as i8,
            y: (2 * cube_bit(face, c, 1) - 1) as i8,
            z: (2 * cube_bit(face, c, 2) - 1) as i8,
        },
        facing: Facing::Axis {
            x: cube_normal(face, 0) as i8,
            y: cube_normal(face, 1) as i8,
            z: cube_normal(face, 2) as i8,
        },
    }
}

/// The two triangles of cube face `face`.
pub open spec fn cube_face(face: int) -> Seq<Sample> {
    Seq::new(6, |c: int| cube_sample(6 * face + c))
}

/// The vertices of a cube.
pub open spec fn cube_plan() -> Seq<Sample> {
    Seq::new(36, |k: int| cube_sample(k))
}

/// The `k`-th vertex of a tetrahedron: for each of the three sides, base
/// corner `i`, the apex and base corner `i + 1` (corners a third of a turn
/// apart, walked clockwise) with the side's normal; then the three base
/// corners facing down.
pub open spec fn tetrahedron_sample(k: int) -> Sample {
    if k < 9 {
        let i = k / 3;
        let facing = Facing::TetraSide {
            first: Turn { num: -i as i32, den: 3 },
            second: Turn { num: -(i + 1) as i32, den: 3 },
        };
        if k % 3 == 0 {
            Sample { place: tetra_base(i), facing }
        } else if k % 3 == 1 {
            Sample { place: Place::Apex, facing }
        } else {
            Sample { place: tetra_base(i + 1), facing }
        }
    } else {
        Sample { place: tetra_base(k - 9), facing: down() }
    }
}

/// The vertices of a tetrahedron.
pub open spec fn tetrahedron_plan() -> Seq<Sample> {
    Seq::new(12, |k: int| tetrahedron_sample(k))
}

/// Vertex `c` (`0..12`) of cylinder sector `t`, between the rim points at `t`
/// and `t + 1` steps: a top-cap triangle facing up, two side triangles with
/// the chord normal, and a bottom-cap triangle facing down.
pub open spec fn cylinder_corner(t: int, c: int) -> Sample {
    let side = Facing::Chord { first: Turn { num: t as i32, den: 32 }, second: Turn { num: (t + 1) as i32, den: 32 } };
    if c == 0 {
        Sample { place: rim(t, 32, 1), facing: up() }
    } else if c == 1 {
        Sample { place: rim(t + 1, 32, 1), facing: up() }
    } else if c == 2 {
        Sample { place: Place::Hub { lift: 1 }, facing: up() }
    } else if c == 3 {
        Sample { place: rim(t, 32, 1), facing: side }
    } else if c == 4 {
        Sample { place: rim(t, 32, -1), facing: side }
    } else if c == 5 || c == 6 {
        Sample { place: rim(t + 1, 32, 1), facing: side }
    } else if c == 7 {
        Sample { place: rim(t, 32, -1), facing: side }
    } else if c == 8 {
        Sample { place: rim(t + 1, 32, -1), facing: side }
    } else if c == 9 {
        Sample { place: rim(t + 1, 32, -1), facing: down() }
    } else if c == 10 {
        Sample { place: rim(t, 32, -1), facing: down() }
    } else {
        Sample { place: Place::Hub { lift: -1i8 }, facing: down() }
    }
}

/// The four triangles of cylinder sector `t`.
pub open spec fn cylinder_sector(t: int) -> Seq<Sample> {
    Seq::new(12, |c: int| cylinder_corner(t, c))
}

/// The vertices of a cylinder: its sectors laid end to end.
pub open spec fn cylinder_plan() -> Seq<Sample> {
    Seq::new(384, |k: int| cylinder_corner(k / 12, k % 12))
}

/// Vertex `c` (`0..6`) of circle sector `t`: the triangle hub and rim points
/// at `t`, `t + 1` steps facing down, then the same points walked back facing
/// up.
pub open spec fn circle_corner(t: int, c: int) -> Sample {
    if c == 0 {
        Sample { place: rim(t, 32, 0), facing: down() }
    } else if c == 1 {
        Sample { place: Place::Hub { lift: 0 }, facing: down() }
    } else if c == 2 {
        Sample { place: rim(t + 1, 32, 0), facing: down() }
    } else if c == 3 {
        Sample { place: rim(t + 1, 32, 0), facing: up() }
    } else if c == 4 {
        Sample { place: Place::Hub { lift: 0 }, facing: up() }
    } else {
        Sample { place: rim(t, 32, 0), facing: up() }
    }
}

/// The two triangles of circle sector `t`.
pub open spec fn circle_sector(t: int) -> Seq<Sample> {
    Seq::new(6, |c: int| circle_corner(t, c))
}

/// The vertices of a circle: its sectors laid end to end.
pub open spec fn circle_plan() -> Seq<Sample> {
    Seq::new(192, |k: int| circle_corner(k / 6, k % 6))
}

/// The `k`-th vertex of a triangle: three rim points a third of a turn apart
/// facing up, then the same outline walked the other way facing down.
pub open spec fn triangle_sample(k: int) -> Sample {
    if k < 3 {
        Sample { place: rim(k, 3, 0), facing: up() }
    } else {
        Sample { place: rim(-(k - 3), 3, 0), facing: down() }
    }
}

/// The vertices of a triangle outline.
pub open spec fn triangle_plan() -> Seq<Sample> {
    Seq::new(6, |k: int| triangle_sample(k))
}

/// The `k`-th vertex of a square outline: rim points at quarter turns
/// 0, 1, 2 and 2, 3, 4 facing up, then the same walked the other way facing
/// down.
pub open spec fn square_sample(k: int) -> Sample {
    if k < 3 {
        Sample { place: rim(k, 4, 0), facing: up() }
    } else if k < 6 {
        Sample { place: rim(k - 1, 4, 0), facing: up() }
    } else if k < 9 {
        Sample { place: rim(-(k - 6), 4, 0), facing: down() }
    } else {
        Sample { place: rim(-(k - 7), 4, 0), facing: down() }
    }
}

/// The vertices of a square outline.
pub open spec fn square_plan() -> Seq<Sample> {
    Seq::new(12, |k: int| square_sample(k))
}

/// How many vertices each generator appends: a fixed number per kind of
/// solid, whatever its center, scale and color. The cylinder's 32 sectors
/// carry four triangles each.
pub proof fn lemma_vertex_counts()
    ensures
        sphere_plan().len() == 6144,
        cube_plan().len() == 36,
        tetrahedron_plan().len() == 12,
        cylinder_plan().len() == 384,
        circle_plan().len() == 192,
        triangle_plan().len() == 6,
        square_plan().len() == 12,
{
}

/// Whether `s` is a cube corner lying on the face that its normal declares:
/// the normal is a unit vector along one axis, and the corner's sign on that
/// axis is the normal's. The corner then lies in the plane
/// `center + normal ⊙ scale` across that axis, on the side where
/// `(corner - center) · normal > 0`.
pub open spec fn on_declared_face(s: Sample) -> bool {
    match (s.place, s.facing) {
        (Place::Corner { x, y, z }, Facing::Axis { x: nx, y: ny, z: nz }) => {
            ||| (ny == 0 && nz == 0 && (nx == 1 || nx == -1) && x == nx)
            ||| (nx == 0 && nz == 0 && (ny == 1 || ny == -1) && y == ny)
            ||| (nx == 0 && ny == 0 && (nz == 1 || nz == -1) && z == nz)
        },
        _ => false,
    }
}

/// The three sign coordinates of a cube corner (zero for any other place).
pub open spec fn corner_coords(p: Place) -> (int, int, int) {
    match p {
        Place::Corner { x, y, z } => (x as int, y as int, z as int),
        _ => (0, 0, 0),
    }
}

/// Whether the triangle `a, b, c` winds counter-clockwise seen from the side
/// its normal points to: `((b - a) × (c - a)) · normal > 0`.
pub open spec fn faces_out(a: Sample, b: Sample, c: Sample) -> bool {
    let (ax, ay, az) = corner_coords(a.place);
    let (bx, by, bz) = corner_coords(b.place);
    let (cx, cy, cz) = corner_coords(c.place);
    let (ux, uy, uz) = (bx - ax, by - ay, bz - az);
    let (wx, wy, wz) = (cx - ax, cy - ay, cz - az);
    match a.facing {
        Facing::Axis { x: nx, y: ny, z: nz } => (uy * wz - uz * wy) * nx + (uz * wx - ux * wz) * ny + (ux * wy
            - uy * wx) * nz > 0,
        _ => false,
    }
}

/// One triangle of a cube face, corner by corner.
proof fn lemma_cube_triangle(f: int, h: int)
    requires
        0 <= f < 6,
        0 <= h < 2,
    ensures
        faces_out(cube_sample(6 * f + 3 * h), cube_sample(6 * f + 3 * h + 1), cube_sample(6 * f + 3 * h + 2)),
        on_declared_face(cube_sample(6 * f + 3 * h)),
        on_declared_face(cube_sample(6 * f + 3 * h + 1)),
        on_declared_face(cube_sample(6 * f + 3 * h + 2)),
        cube_sample(6 * f + 3 * h).facing == cube_sample(6 * f).facing,
        cube_sample(6 * f + 3 * h + 1).facing == cube_sample(6 * f).facing,
        cube_sample(6 * f + 3 * h + 2).facing == cube_sample(6 * f).facing,
{
    lemma_block_index(f, 0, 6);
    lemma_block_index(f, 3 * h, 6);
    lemma_block_index(f, 3 * h + 1, 6);
    lemma_block_index(f, 3 * h + 2, 6);
    if h == 0 {
        if f == 0 {
            let (a, b, c) = (cube_sample(0), cube_sample(1), cube_sample(2));
            assert(faces_out(a, b, c)) by (nonlinear_arith)
                requires
                    a.facing == (Facing::Axis { x: -1i8, y: 0i8, z: 0i8 }),
                    corner_coords(a.place) == (-1int, -1int, -1int),
                    corner_coords(b.place) == (-1int, -1int, 1int),
                    corner_coords(c.place) == (-1int, 1int, 1int),
            ;
        } else if f == 1 {
            let (a, b, c) = (cube_sample(6), cube_sample(7), cube_sample(8));
            assert(faces_out(a, b, c)) by (nonlinear_arith)
                requires
                    a.facing == (Facing::Axis { x: 0i8, y: -1i8, z: 0i8 }),
                    corner_coords(a.place) == (-1int, -1int, -1int),
                    corner_coords(b.place) == (1int, -1int, -1int),
                    corner_coords(c.place) == (1int, -1int, 1int),
            ;
        } else if f == 2 {
            let (a, b, c) = (cube_sample(12), cube_sample(13), cube_sample(14));
            assert(faces_out(a, b, c)) by (nonlinear_arith)
                requires
                    a.facing == (Facing::Axis { x: 0i8, y: 0i8, z: -1i8 }),
                    corner_coords(a.place) == (-1int, -1int, -1int),
                    corner_coords(b.place) == (-1int, 1int, -1int),
                    corner_coords(c.place) == (1int, 1int, -1int),
            ;
        } else if f == 3 {
            let (a, b, c) = (cube_sample(18), cube_sample(19), cube_sample(20));
            assert(faces_out(a, b, c)) by (nonlinear_arith)
                requires
                    a.facing == (Facing::Axis { x: 1i8, y: 0i8, z: 0i8 }),
                    corner_coords(a.place) == (1int, -1int, -1int),
                    corner_coords(b.place) == (1int, 1int, -1int),
                    corner_coords(c.place) == (1int, 1int, 1int),
            ;
        } else if f == 4 {
            let (a, b, c) = (cube_sample(24), cube_sample(25), cube_sample(26));
            assert(faces_out(a, b, c)) by (nonlinear_arith)
                requires
                    a.facing == (Facing::Axis { x: 0i8, y: 1i8, z: 0i8 }),
                    corner_coords(a.place) == (-1int, 1int, -1int),
                    corner_coords(b.place) == (-1int, 1int, 1int),
                    corner_coords(c.place) == (1int, 1int, 1int),
            ;
        } else {
            let (a, b, c) = (cube_sample(30), cube_sample(31), cube_sample(32));
            assert(faces_out(a, b, c)) by (nonlinear_arith)
                requires
                    a.facing == (Facing::Axis { x: 0i8, y: 0i8, z: 1i8 }),
                    corner_coords(a.place) == (-1int, -1int, 1int),
                    corner_coords(b.place) == (1int, -1int, 1int),
                    corner_coords(c.place) == (1int, 1int, 1int),
            ;
        }
    } else {
        if f == 0 {
            let (a, b, c) = (cube_sample(3), cube_sample(4), cube_sample(5));
            assert(faces_out(a, b, c)) by (nonlinear_arith)
                requires
                    a.facing == (Facing::Axis { x: -1i8, y: 0i8, z: 0i8 }),
                    corner_coords(a.place) == (-1int, -1int, -1int),
                    corner_coords(b.place) == (-1int, 1int, 1int),
                    corner_coords(c.place) == (-1int, 1int, -1int),
            ;
        } else if f == 1 {
            let (a, b, c) = (cube_sample(9), cube_sample(10), cube_sample(11));
            assert(faces_out(a, b, c)) by (nonlinear_arith)
                requires
                    a.facing == (Facing::Axis { x: 0i8, y: -1i8, z: 0i8 }),
                    corner_coords(a.place) == (-1int, -1int, -1int),
                    corner_coords(b.place) == (1int, -1int, 1int),
                    corner_coords(c.place) == (-1int, -1int, 1int),
            ;
        } else if f == 2 {
            let (a, b, c) = (cube_sample(15), cube_sample(16), cube_sample(17));
            assert(faces_out(a, b, c)) by (nonlinear_arith)
                requires
                    a.facing == (Facing::Axis { x: 0i8, y: 0i8, z: -1i8 }),
                    corner_coords(a.place) == (-1int, -1int, -1int),
                    corner_coords(b.place) == (1int, 1int, -1int),
                    corner_coords(c.place) == (1int, -1int, -1int),
            ;
        } else if f == 3 {
            let (a, b, c) = (cube_sample(21), cube_sample(22), cube_sample(23));
            assert(faces_out(a, b, c)) by (nonlinear_arith)
                requires
                    a.facing == (Facing::Axis { x: 1i8, y: 0i8, z: 0i8 }),
                    corner_coords(a.place) == (1int, -1int, -1int),
                    corner_coords(b.place) == (1int, 1int, 1int),
                    corner_coords(c.place) == (1int, -1int, 1int),
            ;
        } else if f == 4 {
            let (a, b, c) = (cube_sample(27), cube_sample(28), cube_sample(29));
            assert(faces_out(a, b, c)) by (nonlinear_arith)
                requires
                    a.facing == (Facing::Axis { x: 0i8, y: 1i8, z: 0i8 }),
                    corner_coords(a.place) == (-1int, 1int, -1int),
                    corner_coords(b.place) == (1int, 1int, 1int),
                    corner_coords(c.place) == (1int, 1int, -1int),
            ;
        } else {
            let (a, b, c) = (cube_sample(33), cube_sample(34), cube_sample(35));
            assert(faces_out(a, b, c)) by (nonlinear_arith)
                requires
                    a.facing == (Facing::Axis { x: 0i8, y: 0i8, z: 1i8 }),
                    corner_coords(a.place) == (-1int, -1int, 1int),
                    corner_coords(b.place) == (1int, 1int, 1int),
                    corner_coords(c.place) == (-1int, 1int, 1int),
            ;
        }
    }
}

/// Every vertex of a generated cube lies on the face its normal declares;
/// the six vertices of each face share one normal, and each face's two
/// triangles wind outward.
pub proof fn lemma_cube_faces()
    ensures
        cube_plan().len() == 36,
        forall|k: int| 0 <= k < 36 ==> on_declared_face(#[trigger] cube_plan()[k]),
        forall|f: int, c: int|
            0 <= f < 6 && 0 <= c < 6 ==> (#[trigger] cube_plan()[6 * f + c]).facing == cube_plan()[6 * f].facing,
        forall|f: int, h: int|
            0 <= f < 6 && 0 <= h < 2 ==> faces_out(
                #[trigger] cube_plan()[6 * f + 3 * h],
                cube_plan()[6 * f + 3 * h + 1],
                cube_plan()[6 * f + 3 * h + 2],
            ),
{
    assert forall|k: int| 0 <= k < 36 implies on_declared_face(#[trigger] cube_plan()[k]) by {
        let f = k / 6;
        let r = k % 6;
        lemma_cube_triangle(f, r / 3);
    }
    assert forall|f: int, c: int| 0 <= f < 6 && 0 <= c < 6 implies (#[trigger] cube_plan()[6 * f + c]).facing
        == cube_plan()[6 * f].facing by {
        lemma_cube_triangle(f, c / 3);
    }
    assert forall|f: int, h: int| 0 <= f < 6 && 0 <= h < 2 implies faces_out(
        #[trigger] cube_plan()[6 * f + 3 * h],
        cube_plan()[6 * f + 3 * h + 1],
        cube_plan()[6 * f + 3 * h + 2],
    ) by {
        lemma_cube_triangle(f, h);
    }
}

} // verus!
