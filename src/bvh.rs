use vstd::prelude::*;

verus! {

/// Why a bounding volume hierarchy cannot be built.
#[derive(Clone, Copy, Debug, PartialEq, Eq, Structural)]
pub enum BvhError {
    /// There are no objects to hold.
    Empty,
    /// An object reports no bounding box.
    Unbounded,
}

/// The node that a non-empty, sorted list of bounded objects becomes.
#[derive(Clone, Copy, Debug, PartialEq, Eq, Structural)]
pub enum BvhSplit {
    /// The single object becomes a leaf.
    Leaf,
    /// Objects `0..mid` go to the left subtree and `mid..len` to the right.
    Branch { mid: usize },
}

/// The node for a list of `len` objects; `bounded` says whether every one
/// of them reports a bounding box.
pub open spec fn split_of(len: nat, bounded: bool) -> Result<BvhSplit, BvhError> {
    if len == 0 {
        Err(BvhError::Empty)
    } else if !bounded {
        Err(BvhError::Unbounded)
    } else if len == 1 {
        Ok(BvhSplit::Leaf)
    } else {
        Ok(BvhSplit::Branch { mid: (len / 2) as usize })
    }
}

/// Decides how a list of `len` objects, already sorted along the split
/// axis, is turned into a node.
pub fn bvh_split(len: usize, bounded: bool) -> (r: Result<BvhSplit, BvhError>)
    ensures
        r == split_of(len as nat, bounded),
        r matches Ok(BvhSplit::Branch { mid }) ==> 0 < mid < len,
{
    if len == 0 {
        Err(BvhError::Empty)
    } else if !bounded {
        Err(BvhError::Unbounded)
    } else if len == 1 {
        Ok(BvhSplit::Leaf)
    } else {
        Ok(BvhSplit::Branch { mid: len / 2 })
    }
}

/// Number of leaves of the tree built over `len` bounded objects.
pub open spec fn leaf_count(len: nat) -> nat
    decreases len,
{
    if len <= 1 {
        len
    } else {
        leaf_count(len / 2) + leaf_count((len - len / 2) as nat)
    }
}

/// Height of the tree built over `len` bounded objects (a leaf has height 0).
pub open spec fn tree_height(len: nat) -> nat
    decreases len,
{
    if len <= 1 {
        0
    } else {
        let l = tree_height(len / 2);
        let r = tree_height((len - len / 2) as nat);
        1 + if l > r {
            l
        } else {
            r
        }
    }
}

/// Splitting at the midpoint puts every object in exactly one leaf.
pub proof fn lemma_every_object_in_one_leaf(len: nat)
    ensures
        leaf_count(len) == len,
    decreases len,
{
    if len > 1 {
        lemma_every_object_in_one_leaf(len / 2);
        lemma_every_object_in_one_leaf((len - len / 2) as nat);
    }
}

/// Splitting at the midpoint keeps the tree balanced: a tree of height `h`
/// holds more than `2^(h-1)` objects.
pub proof fn lemma_height_is_logarithmic(len: nat)
    requires
        len >= 1,
    ensures
        tree_height(len) == 0 || vstd::arithmetic::power2::pow2((tree_height(len) - 1) as nat)
            < len,
    decreases len,
{
    if len > 1 {
        let a = len / 2;
        let b = (len - len / 2) as nat;
        lemma_height_is_logarithmic(a);
        lemma_height_is_logarithmic(b);
        let (ha, hb) = (tree_height(a), tree_height(b));
        let c = if ha > hb {
            a
        } else {
            b
        };
        let hc = tree_height(c);
        assert(tree_height(len) == 1 + hc);
        if hc == 0 {
            vstd::arithmetic::power2::lemma2_to64();
        } else {
            vstd::arithmetic::power2::lemma_pow2_unfold(hc);
            assert(2 * c <= len + 1);
        }
    }
}

} // verus!
