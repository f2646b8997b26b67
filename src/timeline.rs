use vstd::prelude::*;

verus! {

/// The kinds of object a timeline can place on a layer.
#[derive(Clone, Copy, Debug, PartialEq, Eq, Structural)]
pub enum ObjectKind {
    Sphere,
    Cube,
    Tetrahedron,
    Circle,
    Square,
    Triangle,
    Image,
    Str,
}

} // verus!
