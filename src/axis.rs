use vstd::prelude::*;

verus! {

/// `(k, a, b)` where `k` is the given axis and `a`, `b` are the two axes that
/// follow it in cyclic order x -> y -> z -> x.
pub open spec fn cyclic_axes(k: nat) -> (usize, usize, usize)
    recommends
        k < 3,
{
    (k as usize, ((k + 1) % 3) as usize, ((k + 2) % 3) as usize)
}

/// The three indices name each coordinate axis exactly once.
pub open spec fn is_axis_triple(t: (usize, usize, usize)) -> bool {
    &&& t.0 < 3
    &&& t.1 < 3
    &&& t.2 < 3
    &&& t.0 != t.1
    &&& t.1 != t.2
    &&& t.0 != t.2
}

/// The coordinate plane an axis-aligned rectangle lies in.
#[derive(Clone, Copy, Debug, PartialEq, Eq, Structural)]
pub enum Plane {
    YZ,
    ZX,
    XY,
}

impl Plane {
    /// The axis perpendicular to the plane.
    pub open spec fn normal_axis(self) -> nat {
        match self {
            Plane::YZ => 0,
            Plane::ZX => 1,
            Plane::XY => 2,
        }
    }

    /// `(k_axis, a_axis, b_axis)`: the rectangle sits at a fixed `k_axis`
    /// coordinate and spans `a_axis` and `b_axis`.
    pub fn axes(&self) -> (r: (usize, usize, usize))
        ensures
            r == cyclic_axes(self.normal_axis()),
            is_axis_triple(r),
    {
        match self {
            Plane::YZ => (0, 1, 2),
            Plane::ZX => (1, 2, 0),
            Plane::XY => (2, 0, 1),
        }
    }
}

/// An axis to rotate about.
#[derive(Clone, Copy, Debug, PartialEq, Eq, Structural)]
pub enum Axis {
    X,
    Y,
    Z,
}

impl Axis {
    pub open spec fn index(self) -> nat {
        match self {
            Axis::X => 0,
            Axis::Y => 1,
            Axis::Z => 2,
        }
    }
}

/// `(r_axis, a_axis, b_axis)`: a rotation about `r_axis` turns the
/// `(a_axis, b_axis)` plane and leaves `r_axis` coordinates unchanged.
pub fn get_axis(axis: &Axis) -> (r: (usize, usize, usize))
    ensures
        r == cyclic_axes(axis.index()),
        is_axis_triple(r),
{
    match axis {
        Axis::X => (0, 1, 2),
        Axis::Y => (1, 2, 0),
        Axis::Z => (2, 0, 1),
    }
}

} // verus!
