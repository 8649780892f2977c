use vstd::prelude::*;

verus! {

use vstd::arithmetic::div_mod::lemma_fundamental_div_mod_converse;

/// A decoded pixel plane with four bytes per pixel (red, green, blue, alpha),
/// stored row-major.
pub struct RgbaPlane {
    pub width: u32,
    pub height: u32,
    pub data: Vec<u8>,
}

impl RgbaPlane {
    /// Both dimensions are positive and the buffer holds exactly four bytes
    /// for each of the `width * height` pixels.
    pub open spec fn wf(self) -> bool {
        &&& self.width > 0
        &&& self.height > 0
        &&& self.data@.len() == 4 * (self.width as int) * (self.height as int)
    }

    /// True iff the plane is well formed.
    pub fn check_wf(&self) -> (b: bool)
        ensures
            b == self.wf(),
    {
        if self.width == 0 || self.height == 0 {
            return false;
        }
        proof {
            assert(4 * (self.width as int) * (self.height as int) < 0x100000000000000000)
                by (nonlinear_arith)
                requires
                    self.width <= u32::MAX,
                    self.height <= u32::MAX,
            ;
        }
        let need: u128 = 4u128 * (self.width as u128) * (self.height as u128);
        let got: u128 = self.data.len() as u128;
        got == need
    }
}

/// A pixel plane with three bytes per pixel (red, green, blue), row-major.
pub struct RgbPlane {
    pub width: u32,
    pub height: u32,
    pub data: Vec<u8>,
}

impl RgbPlane {
    /// The buffer holds exactly three bytes for each of the
    /// `width * height` pixels.
    pub open spec fn wf(self) -> bool {
        self.data@.len() == 3 * (self.width as int) * (self.height as int)
    }
}

/// The red, green and blue bytes of a four-byte-per-pixel byte sequence, in
/// order, with every fourth (alpha) byte dropped.
pub open spec fn rgb_of_rgba(data: Seq<u8>) -> Seq<u8> {
    Seq::new((data.len() / 4 * 3) as nat, |i: int| data[i / 3 * 4 + i % 3])
}

/// Drops the alpha channel of every pixel of `src`.
pub fn rgba_plane_to_rgb(src: &RgbaPlane) -> (r: RgbPlane)
    requires
        src.wf(),
    ensures
        r.width == src.width,
        r.height == src.height,
        r.data@ == rgb_of_rgba(src.data@),
        r.wf(),
{
    let npix: usize = src.data.len() / 4;
    proof {
        let area: int = (src.width as int) * (src.height as int);
        assert(4 * (src.width as int) * (src.height as int) == area * 4) by (nonlinear_arith)
            requires
                area == (src.width as int) * (src.height as int),
        ;
        lemma_fundamental_div_mod_converse(src.data@.len() as int, 4, area, 0);
        assert(npix == area);
        assert(4 * npix == src.data@.len());
    }
    let mut out: Vec<u8> = Vec::new();
    let mut p: usize = 0;
    while p < npix
        invariant
            p <= npix,
            4 * npix == src.data@.len(),
            4 * npix <= usize::MAX,
            npix == (src.width as int) * (src.height as int),
            out@.len() == 3 * p,
            forall|j: int| 0 <= j < out@.len() ==> out@[j] == src.data@[j / 3 * 4 + j % 3],
        decreases npix - p,
    {
        out.push(src.data[4 * p]);
        out.push(src.data[4 * p + 1]);
        out.push(src.data[4 * p + 2]);
        proof {
            let q: int = p as int;
            lemma_fundamental_div_mod_converse(3 * q, 3, q, 0);
            lemma_fundamental_div_mod_converse(3 * q + 1, 3, q, 1);
            lemma_fundamental_div_mod_converse(3 * q + 2, 3, q, 2);
        }
        p = p + 1;
    }
    proof {
        lemma_fundamental_div_mod_converse(src.data@.len() as int, 4, npix as int, 0);
        assert(out@.len() == rgb_of_rgba(src.data@).len());
        assert(out@ =~= rgb_of_rgba(src.data@));
        assert(3 * ((src.width as int) * (src.height as int)) == 3 * (src.width as int) * (
        src.height as int)) by (nonlinear_arith);
    }
    RgbPlane { width: src.width, height: src.height, data: out }
}

} // verus!
