use vstd::prelude::*;

verus! {

/// An RGB image used as a texture: `nx` by `ny` pixels, three bytes per
/// pixel, rows stored one after another starting with the top row.
#[derive(Clone)]
pub struct ImageTexture {
    data: Vec<u8>,
    nx: u32,
    ny: u32,
}

/// `i` clamped to the last index below `n`.
pub open spec fn clamp_index(i: int, n: int) -> int {
    if i > n - 1 {
        n - 1
    } else {
        i
    }
}

impl ImageTexture {
    /// The pixel bytes.
    pub closed spec fn bytes(&self) -> Seq<u8> {
        self.data@
    }

    pub closed spec fn width(&self) -> nat {
        self.nx as nat
    }

    pub closed spec fn height(&self) -> nat {
        self.ny as nat
    }

    /// The image has at least one pixel and holds three bytes for each.
    pub open spec fn wf(&self) -> bool {
        &&& self.width() > 0
        &&& self.height() > 0
        &&& 3 * self.width() * self.height() <= self.bytes().len()
    }

    /// Offset of the first byte of pixel `(i, j)`, each coordinate clamped
    /// to the image.
    pub open spec fn texel_offset(&self, i: int, j: int) -> int {
        3 * clamp_index(i, self.width() as int) + 3 * self.width() * clamp_index(
            j,
            self.height() as int,
        )
    }

    pub fn new(data: Vec<u8>, nx: u32, ny: u32) -> (r: Self)
        ensures
            r.bytes() == data@,
            r.width() == nx,
            r.height() == ny,
    {
        Self { data, nx, ny }
    }

    pub fn nx(&self) -> (r: u32)
        ensures
            r == self.width(),
    {
        self.nx
    }

    pub fn ny(&self) -> (r: u32)
        ensures
            r == self.height(),
    {
        self.ny
    }

    pub fn is_well_formed(&self) -> (r: bool)
        ensures
            r == self.wf(),
    {
        proof {
            let (w, h) = (self.nx as int, self.ny as int);
            assert(w * h <= 0xffff_ffff * 0xffff_ffff) by (nonlinear_arith)
                requires
                    0 <= w <= 0xffff_ffff,
                    0 <= h <= 0xffff_ffff,
            ;
        }
        let need: u128 = 3 * ((self.nx as u128) * (self.ny as u128));
        proof {
            let (w, h) = (self.nx as int, self.ny as int);
            assert(3 * (w * h) == 3 * w * h) by (nonlinear_arith);
        }
        self.nx > 0 && self.ny > 0 && need <= self.data.len() as u128
    }

    /// Offset of the first byte of pixel `(i, j)`; a coordinate past the
    /// last column or row is taken as that column or row.
    pub fn texel_index(&self, i: usize, j: usize) -> (r: usize)
        requires
            self.wf(),
        ensures
            r == self.texel_offset(i as int, j as int),
            r + 2 < self.bytes().len(),
    {
        let nx = self.nx as usize;
        let ny = self.ny as usize;
        // Reading the length brings its bound: it fits in usize.
        let _len = self.data.len();
        let i = if i > nx - 1 {
            nx - 1
        } else {
            i
        };
        let j = if j > ny - 1 {
            ny - 1
        } else {
            j
        };
        proof {
            let w = nx as int;
            let h = ny as int;
            let (a, b) = (i as int, j as int);
            assert(3 * a + 3 * w * b + 2 < 3 * w * h && 3 * w <= 3 * w * h) by (nonlinear_arith)
                requires
                    0 <= a < w,
                    0 <= b < h,
            {
                assert(w * b <= w * (h - 1));
                assert(w * 1 <= w * h);
            }
        }
        3 * i + 3 * nx * j
    }

    /// The red, green and blue bytes of pixel `(i, j)`, clamped as
    /// `texel_index` does.
    pub fn texel(&self, i: usize, j: usize) -> (r: (u8, u8, u8))
        requires
            self.wf(),
        ensures
            r == (
                self.bytes()[self.texel_offset(i as int, j as int)],
                self.bytes()[self.texel_offset(i as int, j as int) + 1],
                self.bytes()[self.texel_offset(i as int, j as int) + 2],
            ),
    {
        // Reading the length brings its bound: it fits in usize.
        let _len = self.data.len();
        let idx = self.texel_index(i, j);
        (self.data[idx], self.data[idx + 1], self.data[idx + 2])
    }

    /// Pixel `(i, j)` can be read: the image has a pixel and the data holds
    /// all three bytes of the clamped pixel.
    pub open spec fn texel_readable(&self, i: int, j: int) -> bool {
        &&& self.width() > 0
        &&& self.height() > 0
        &&& self.texel_offset(i, j) + 2 < self.bytes().len()
    }

    /// The bytes of pixel `(i, j)`, clamped as `texel_index` does, or `None`
    /// when the image has no pixel or its data stops short of them.
    pub fn texel_checked(&self, i: usize, j: usize) -> (r: Option<(u8, u8, u8)>)
        ensures
            r is Some <==> self.texel_readable(i as int, j as int),
            r matches Some(t) ==> t == (
                self.bytes()[self.texel_offset(i as int, j as int)],
                self.bytes()[self.texel_offset(i as int, j as int) + 1],
                self.bytes()[self.texel_offset(i as int, j as int) + 2],
            ),
    {
        if self.nx == 0 || self.ny == 0 {
            return None;
        }
        let i: u128 = if i as u128 > self.nx as u128 - 1 {
            self.nx as u128 - 1
        } else {
            i as u128
        };
        let j: u128 = if j as u128 > self.ny as u128 - 1 {
            self.ny as u128 - 1
        } else {
            j as u128
        };
        let nx = self.nx as u128;
        proof {
            let (a, b, w) = (i as int, j as int, nx as int);
            assert(3 * a + 3 * w * b + 2 < 0x1_0000_0000_0000_0000_0000_0000) by (nonlinear_arith)
                requires
                    0 <= a < 0x1_0000_0000,
                    0 <= b < 0x1_0000_0000,
                    0 <= w < 0x1_0000_0000,
            {
                assert(w * b <= 0x1_0000_0000 * 0x1_0000_0000);
            }
        }
        let offset = 3 * i + 3 * nx * j;
        if offset + 2 < self.data.len() as u128 {
            let k = offset as usize;
            Some((self.data[k], self.data[k + 1], self.data[k + 2]))
        } else {
            None
        }
    }
}

} // verus!
