use vstd::prelude::*;

verus! {

/// The pixel `(i, j)` that position `cnt` of the output stream shows: rows
/// are written from the top (`j == height - 1`) down, each from left to right.
pub open spec fn scan_pixel(cnt: nat, width: nat, height: nat) -> (nat, nat)
    recommends
        width > 0,
        cnt < width * height,
{
    ((cnt % width) as nat, (height - 1 - cnt / width) as nat)
}

/// The column and row of the `cnt`-th pixel of a `width` by `height` image
/// written in scan order.
pub fn pixel_coords(cnt: u64, width: u64, height: u64) -> (r: (u64, u64))
    requires
        width > 0,
        cnt < width * height,
    ensures
        (r.0 as nat, r.1 as nat) == scan_pixel(cnt as nat, width as nat, height as nat),
        r.0 < width,
        r.1 < height,
{
    let row = cnt / width;
    proof {
        let (c, w, h) = (cnt as int, width as int, height as int);
        assert(c / w < h) by (nonlinear_arith)
            requires
                w > 0,
                0 <= c < w * h,
        {
            if c / w >= h {
                assert(w * (c / w) >= w * h);
                assert(w * (c / w) <= c) by {
                    vstd::arithmetic::div_mod::lemma_fundamental_div_mod(c, w);
                }
            }
        }
    }
    (cnt % width, height - row - 1)
}

} // verus!
