use core::marker::PhantomData;
use vstd::prelude::*;

use crate::plan::{
    circle_plan, circle_sector, cube_face, cube_plan, cube_sample, cylinder_plan, cylinder_sector, down, lemma_block_index,
    lemma_sphere_cell, lemma_take_block, rim, sphere_cell, sphere_plan, sphere_point, square_plan, tetra_base,
    tetrahedron_plan, triangle_plan, up, SECTORS,
};
use crate::sample::{Facing, Place, Sample, Turn};

verus! {

/// The kinds of object that can be generated as a sphere.
pub trait SphereTrait {}

/// Marks an [`Object`] as a sphere.
pub struct Sphere;

impl SphereTrait for Sphere {}

/// The kinds of object that can be generated as a cube.
pub trait CubeTrait {}

/// Marks an [`Object`] as a cube.
pub struct Cube;

impl CubeTrait for Cube {}

/// The kinds of object that can be generated as a tetrahedron.
pub trait TetrahedronTrait {}

/// Marks an [`Object`] as a tetrahedron.
pub struct Tetrahedron;

impl TetrahedronTrait for Tetrahedron {}

/// The kinds of object that can be generated as a cylinder.
pub trait CylinderTrait {}

/// Marks an [`Object`] as a cylinder.
pub struct Cylinder;

impl CylinderTrait for Cylinder {}

/// The kinds of object that can be generated as a flat disc.
pub trait CircleTrait {}

/// Marks an [`Object`] as a flat disc.
pub struct Circle;

impl CircleTrait for Circle {}

/// The kinds of object that can be generated as a square outline.
pub trait SquareTrait {}

/// Marks an [`Object`] as a square outline.
pub struct Square;

impl SquareTrait for Square {}

/// The kinds of object that can be generated as a triangle outline.
pub trait TriangleTrait {}

/// Marks an [`Object`] as a triangle outline.
pub struct Triangle;

impl TriangleTrait for Triangle {}

/// The vertex list of one solid of kind `T`, in the order it was generated.
pub struct Object<T> {
    pub shape: PhantomData<T>,
    pub nodes: Vec<Sample>,
}

impl<T> Object<T> {
    /// An object with no vertices yet.
    pub fn new() -> (r: Self)
        ensures
            r.nodes@.len() == 0,
    {
        Object { shape: PhantomData, nodes: Vec::new() }
    }
}

/// The polar sample `slice` and `stack` steps into the sphere's sweep.
fn sphere_point_at(slice: i32, stack: i32) -> (r: Sample)
    ensures
        r == sphere_point(slice as int, stack as int),
{
    let inclination = Turn::new(slice, 32);
    let azimuth = Turn::new(stack, 32);
    Sample::new(Place::Polar { inclination, azimuth }, Facing::Polar { inclination, azimuth })
}

/// Appends the two triangles of the sphere cell at (`slice`, `stack`).
fn push_sphere_cell(nodes: &mut Vec<Sample>, slice: i32, stack: i32)
    requires
        0 <= slice < SECTORS,
        0 <= stack < SECTORS,
        old(nodes)@.len() + 6 <= usize::MAX,
    ensures
        final(nodes)@ == old(nodes)@ + sphere_cell(slice as int, stack as int),
{
    nodes.push(sphere_point_at(slice, stack));
    nodes.push(sphere_point_at(slice + 1, stack));
    nodes.push(sphere_point_at(slice + 1, stack + 1));
    nodes.push(sphere_point_at(slice, stack));
    nodes.push(sphere_point_at(slice + 1, stack + 1));
    nodes.push(sphere_point_at(slice, stack + 1));
    assert(final(nodes)@ =~= old(nodes)@ + sphere_cell(slice as int, stack as int));
}

impl<T: SphereTrait> Object<T> {
    /// Appends the 6144 vertices of a sphere: both angles sweep a full turn in
    /// 32 steps and each of the 32 × 32 cells is covered by two triangles.
    pub fn generate_sphere_nodes(&mut self)
        requires
            old(self).nodes@.len() + 6144 <= usize::MAX,
        ensures
            final(self).nodes@ == old(self).nodes@ + sphere_plan(),
    {
        let ghost start = self.nodes@;
        let mut slice: i32 = 0;
        while slice < SECTORS
            invariant
                0 <= slice <= SECTORS,
                self.nodes@ == start + sphere_plan().take(6 * (32 * slice)),
                start.len() + 6144 <= usize::MAX,
            decreases SECTORS - slice,
        {
            let mut stack: i32 = 0;
            while stack < SECTORS
                invariant
                    0 <= slice < SECTORS,
                    0 <= stack <= SECTORS,
                    self.nodes@ == start + sphere_plan().take(6 * (32 * slice + stack)),
                    start.len() + 6144 <= usize::MAX,
                decreases SECTORS - stack,
            {
                push_sphere_cell(&mut self.nodes, slice, stack);
                proof {
                    lemma_sphere_cell(slice as int, stack as int);
                }
                stack += 1;
            }
            slice += 1;
        }
        assert(sphere_plan().take(6144) =~= sphere_plan());
    }
}

/// The corner of the unit cube with coordinates `v`, as a place.
fn corner(v: [i8; 3]) -> (r: Place)
    requires
        forall|j: int| 0 <= j < 3 ==> v[j] == 0 || v[j] == 1,
    ensures
        r == (Place::Corner { x: (2 * v[0] - 1) as i8, y: (2 * v[1] - 1) as i8, z: (2 * v[2] - 1) as i8 }),
{
    Place::Corner { x: 2 * v[0] - 1, y: 2 * v[1] - 1, z: 2 * v[2] - 1 }
}

/// Appends the two triangles of cube face `face`.
fn push_cube_face(nodes: &mut Vec<Sample>, face: usize)
    requires
        face < 6,
        old(nodes)@.len() + 6 <= usize::MAX,
    ensures
        final(nodes)@ == old(nodes)@ + cube_face(face as int),
{
    let i = face % 3;
    let mut normal: [i8; 3] = [0, 0, 0];
    let mut v: [i8; 3] = [0, 0, 0];
    if face < 3 {
        normal[i] = -1;
        let facing = Facing::Axis { x: normal[0], y: normal[1], z: normal[2] };
        nodes.push(Sample::new(corner(v), facing));
        v[(i + 2) % 3] = 1;
        nodes.push(Sample::new(corner(v), facing));
        v[(i + 1) % 3] = 1;
        nodes.push(Sample::new(corner(v), facing));
        v = [0, 0, 0];
        nodes.push(Sample::new(corner(v), facing));
        v[(i + 2) % 3] = 1;
        v[(i + 1) % 3] = 1;
        nodes.push(Sample::new(corner(v), facing));
        v[(i + 2) % 3] = 0;
        nodes.push(Sample::new(corner(v), facing));
    } else {
        normal[i] = 1;
        let facing = Facing::Axis { x: normal[0], y: normal[1], z: normal[2] };
        v[i] = 1;
        nodes.push(Sample::new(corner(v), facing));
        v[(i + 1) % 3] = 1;
        nodes.push(Sample::new(corner(v), facing));
        v[(i + 2) % 3] = 1;
        nodes.push(Sample::new(corner(v), facing));
        v = [0, 0, 0];
        v[i] = 1;
        nodes.push(Sample::new(corner(v), facing));
        v[(i + 2) % 3] = 1;
        v[(i + 1) % 3] = 1;
        nodes.push(Sample::new(corner(v), facing));
        v[(i + 1) % 3] = 0;
        nodes.push(Sample::new(corner(v), facing));
    }
    proof {
        assert forall|c: int| 0 <= c < 6 implies #[trigger] cube_face(face as int)[c] == cube_sample(face * 6 + c) by {
            lemma_block_index(face as int, c, 6);
        }
    }
    assert(final(nodes)@ =~= old(nodes)@ + cube_face(face as int));
}

impl<T: CubeTrait> Object<T> {
    /// Appends the 36 vertices of a cube: two outward-facing triangles on each
    /// of the six faces.
    pub fn generate_cube_nodes(&mut self)
        requires
            old(self).nodes@.len() + 36 <= usize::MAX,
        ensures
            final(self).nodes@ == old(self).nodes@ + cube_plan(),
    {
        let ghost start = self.nodes@;
        let mut face: usize = 0;
        while face < 6
            invariant
                face <= 6,
                self.nodes@ == start + cube_plan().take(6 * face),
                start.len() + 36 <= usize::MAX,
            decreases 6 - face,
        {
            push_cube_face(&mut self.nodes, face);
            assert(cube_plan().take(6 * face + 6) =~= cube_plan().take(6 * face) + cube_face(face as int));
            face += 1;
        }
        assert(cube_plan().take(36) =~= cube_plan());
    }
}

/// The tetrahedron's base corner `i` (azimuth `-i / 3` turn).
fn tetra_base_at(i: i32) -> (r: Place)
    requires
        0 <= i <= 3,
    ensures
        r == tetra_base(i as int),
{
    Place::TetraBase { azimuth: Turn::new(-i, 3) }
}

impl<T: TetrahedronTrait> Object<T> {
    /// Appends the 12 vertices of a tetrahedron: three sides meeting at the
    /// apex `(0, 0, scale.z)`, then the base facing down.
    pub fn generate_tetrahedron_nodes(&mut self)
        requires
            old(self).nodes@.len() + 12 <= usize::MAX,
        ensures
            final(self).nodes@ == old(self).nodes@ + tetrahedron_plan(),
    {
        let ghost start = self.nodes@;
        let mut i: i32 = 0;
        while i < 3
            invariant
                0 <= i <= 3,
                self.nodes@ == start + tetrahedron_plan().take(3 * i),
                start.len() + 12 <= usize::MAX,
            decreases 3 - i,
        {
            let facing = Facing::TetraSide { first: Turn::new(-i, 3), second: Turn::new(-(i + 1), 3) };
            self.nodes.push(Sample::new(tetra_base_at(i), facing));
            self.nodes.push(Sample::new(Place::Apex, facing));
            self.nodes.push(Sample::new(tetra_base_at(i + 1), facing));
            assert(self.nodes@ =~= start + tetrahedron_plan().take(3 * i + 3));
            i += 1;
        }
        let mut i: i32 = 0;
        while i < 3
            invariant
                0 <= i <= 3,
                self.nodes@ == start + tetrahedron_plan().take(9 + i),
                start.len() + 12 <= usize::MAX,
            decreases 3 - i,
        {
            self.nodes.push(Sample::new(tetra_base_at(i), Facing::Axis { x: 0, y: 0, z: -1 }));
            assert(self.nodes@ =~= start + tetrahedron_plan().take(9 + i + 1));
            i += 1;
        }
        assert(tetrahedron_plan().take(12) =~= tetrahedron_plan());
    }
}

/// The equator point at azimuth `num / den` turn, raised by `lift` half
/// heights.
fn rim_at(num: i32, den: u32, lift: i8) -> (r: Place)
    ensures
        r == rim(num as int, den as int, lift as int),
{
    Place::Rim { azimuth: Turn::new(num, den), lift }
}

/// Appends the four triangles of cylinder sector `t`.
fn push_cylinder_sector(nodes: &mut Vec<Sample>, t: i32)
    requires
        0 <= t < SECTORS,
        old(nodes)@.len() + 12 <= usize::MAX,
    ensures
        final(nodes)@ == old(nodes)@ + cylinder_sector(t as int),
{
    let top = Facing::Axis { x: 0, y: 0, z: 1 };
    let side = Facing::Chord { first: Turn::new(t, 32), second: Turn::new(t + 1, 32) };
    let bottom = Facing::Axis { x: 0, y: 0, z: -1 };
    nodes.push(Sample::new(rim_at(t, 32, 1), top));
    nodes.push(Sample::new(rim_at(t + 1, 32, 1), top));
    nodes.push(Sample::new(Place::Hub { lift: 1 }, top));

    nodes.push(Sample::new(rim_at(t, 32, 1), side));
    nodes.push(Sample::new(rim_at(t, 32, -1), side));
    nodes.push(Sample::new(rim_at(t + 1, 32, 1), side));

    nodes.push(Sample::new(rim_at(t + 1, 32, 1), side));
    nodes.push(Sample::new(rim_at(t, 32, -1), side));
    nodes.push(Sample::new(rim_at(t + 1, 32, -1), side));

    nodes.push(Sample::new(rim_at(t + 1, 32, -1), bottom));
    nodes.push(Sample::new(rim_at(t, 32, -1), bottom));
    nodes.push(Sample::new(Place::Hub { lift: -1 }, bottom));
    assert(final(nodes)@ =~= old(nodes)@ + cylinder_sector(t as int));
}

impl<T: CylinderTrait> Object<T> {
    /// Appends the 384 vertices of a cylinder of height `scale.z`: each of the
    /// 32 sectors gets a top-cap triangle, two side triangles and a
    /// bottom-cap triangle.
    pub fn generate_cylinder_nodes(&mut self)
        requires
            old(self).nodes@.len() + 384 <= usize::MAX,
        ensures
            final(self).nodes@ == old(self).nodes@ + cylinder_plan(),
    {
        let ghost start = self.nodes@;
        let mut t: i32 = 0;
        while t < SECTORS
            invariant
                0 <= t <= SECTORS,
                self.nodes@ == start + cylinder_plan().take(12 * t),
                start.len() + 384 <= usize::MAX,
            decreases SECTORS - t,
        {
            push_cylinder_sector(&mut self.nodes, t);
            proof {
                assert forall|c: int| 0 <= c < 12 implies cylinder_plan()[t * 12 + c] == #[trigger] cylinder_sector(
                    t as int,
                )[c] by {
                    lemma_block_index(t as int, c, 12);
                }
                lemma_take_block(cylinder_plan(), 12, t as int, cylinder_sector(t as int));
            }
            t += 1;
        }
        assert(cylinder_plan().take(384) =~= cylinder_plan());
    }
}

/// Appends the front and back triangles of circle sector `t`.
fn push_circle_sector(nodes: &mut Vec<Sample>, t: i32)
    requires
        0 <= t < SECTORS,
        old(nodes)@.len() + 6 <= usize::MAX,
    ensures
        final(nodes)@ == old(nodes)@ + circle_sector(t as int),
{
    let front = Facing::Axis { x: 0, y: 0, z: -1 };
    nodes.push(Sample::new(rim_at(t, 32, 0), front));
    nodes.push(Sample::new(Place::Hub { lift: 0 }, front));
    nodes.push(Sample::new(rim_at(t + 1, 32, 0), front));
    let back = Facing::Axis { x: 0, y: 0, z: 1 };
    nodes.push(Sample::new(rim_at(t + 1, 32, 0), back));
    nodes.push(Sample::new(Place::Hub { lift: 0 }, back));
    nodes.push(Sample::new(rim_at(t, 32, 0), back));
    assert(final(nodes)@ =~= old(nodes)@ + circle_sector(t as int));
}

impl<T: CircleTrait> Object<T> {
    /// Appends the 192 vertices of a flat disc: each of the 32 sectors gets a
    /// triangle facing down and the same triangle facing up.
    pub fn generate_circle_nodes(&mut self)
        requires
            old(self).nodes@.len() + 192 <= usize::MAX,
        ensures
            final(self).nodes@ == old(self).nodes@ + circle_plan(),
    {
        let ghost start = self.nodes@;
        let mut t: i32 = 0;
        while t < SECTORS
            invariant
                0 <= t <= SECTORS,
                self.nodes@ == start + circle_plan().take(6 * t),
                start.len() + 192 <= usize::MAX,
            decreases SECTORS - t,
        {
            push_circle_sector(&mut self.nodes, t);
            proof {
                assert forall|c: int| 0 <= c < 6 implies circle_plan()[t * 6 + c] == #[trigger] circle_sector(
                    t as int,
                )[c] by {
                    lemma_block_index(t as int, c, 6);
                }
                lemma_take_block(circle_plan(), 6, t as int, circle_sector(t as int));
            }
            t += 1;
        }
        assert(circle_plan().take(192) =~= circle_plan());
    }
}

impl<T: TriangleTrait> Object<T> {
    /// Appends the outline of a triangle.
    pub fn generate_triangle_nodes(&mut self)
        requires
            old(self).nodes@.len() + 6 <= usize::MAX,
        ensures
            final(self).nodes@ == old(self).nodes@ + triangle_plan(),
    {
        let ghost start = self.nodes@;
        let mut i: i32 = 0;
        while i < 3
            invariant
                0 <= i <= 3,
                self.nodes@ == start + triangle_plan().take(i as int),
                start.len() + 6 <= usize::MAX,
            decreases 3 - i,
        {
            self.nodes.push(Sample::new(Place::Rim { azimuth: Turn::new(i, 3), lift: 0 }, Facing::Axis { x: 0, y: 0, z: 1 }));
            assert(triangle_plan().take(i + 1) =~= triangle_plan().take(i as int).push(triangle_plan()[i as int]));
            i += 1;
        }
        let mut i: i32 = 0;
        while i < 3
            invariant
                0 <= i <= 3,
                self.nodes@ == start + triangle_plan().take(3 + i),
                start.len() + 6 <= usize::MAX,
            decreases 3 - i,
        {
            self.nodes.push(Sample::new(Place::Rim { azimuth: Turn::new(-i, 3), lift: 0 }, Facing::Axis { x: 0, y: 0, z: -1 }));
            assert(triangle_plan().take(3 + i + 1) =~= triangle_plan().take(3 + i).push(triangle_plan()[3 + i]));
            i += 1;
        }
        assert(triangle_plan().take(6) =~= triangle_plan());
    }
}

impl<T: SquareTrait> Object<T> {
    /// Appends the outline of a square: rim points a quarter turn apart,
    /// in two groups of three facing up and two facing down.
    pub fn generate_square_nodes(&mut self)
        requires
            old(self).nodes@.len() + 12 <= usize::MAX,
        ensures
            final(self).nodes@ == old(self).nodes@ + square_plan(),
    {
        let ghost start = self.nodes@;
        let top = Facing::Axis { x: 0, y: 0, z: 1 };
        let bottom = Facing::Axis { x: 0, y: 0, z: -1 };
        let mut group: i32 = 0;
        while group < 4
            invariant
                0 <= group <= 4,
                self.nodes@ == start + square_plan().take(3 * group),
                start.len() + 12 <= usize::MAX,
                top == up(),
                bottom == down(),
            decreases 4 - group,
        {
            let facing = if group < 2 {
                top
            } else {
                bottom
            };
            let first: i32 = if group % 2 == 0 {
                0
            } else {
                2
            };
            let mut i: i32 = 0;
            while i < 3
                invariant
                    0 <= group < 4,
                    0 <= i <= 3,
                    self.nodes@ == start + square_plan().take(3 * group + i),
                    start.len() + 12 <= usize::MAX,
                    facing == (if group < 2 { up() } else { down() }),
                    first == (if group % 2 == 0 { 0int } else { 2int }),
                decreases 3 - i,
            {
                let step = if group < 2 {
                    i + first
                } else {
                    -(i + first)
                };
                self.nodes.push(Sample::new(rim_at(step, 4, 0), facing));
                assert(square_plan().take(3 * group + i + 1) =~= square_plan().take(3 * group + i).push(
                    square_plan()[3 * group + i],
                ));
                i += 1;
            }
            group += 1;
        }
        assert(square_plan().take(12) =~= square_plan());
    }
}

} // verus!
