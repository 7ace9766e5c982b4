use vstd::prelude::*;

verus! {

/// The additive and multiplicative identities of a vector type.
pub trait VectorConst {
    const ZERO: Self;
    const ONE: Self;
}

/// The unit vectors along the three coordinate axes.
pub trait Vector3Const: VectorConst {
    const X: Self;
    const Y: Self;
    const Z: Self;
}

} // verus!
