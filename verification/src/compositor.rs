use vstd::prelude::*;

use crate::plane::RgbPlane;

verus! {

/// One destination pixel: the three colour bytes packed into a 32-bit word
/// as `0x00RRGGBB`, with an unused leading byte.
pub open spec fn pack_pixel(r: u8, g: u8, b: u8) -> u32 {
    ((r as u32) << 16) | ((g as u32) << 8) | (b as u32)
}

/// Copies `src` into the destination buffer, row-major, packing each
/// three-byte pixel into the destination's 32-bit word encoding. The
/// destination must already be sized to exactly one word per source pixel.
pub fn composite(src: &RgbPlane, dest: &mut Vec<u32>)
    requires
        src.wf(),
        old(dest)@.len() == (src.width as int) * (src.height as int),
    ensures
        final(dest)@.len() == old(dest)@.len(),
        forall|k: int| 0 <= k < final(dest)@.len() ==> final(dest)@[k] == pack_pixel(
            src.data@[3 * k],
            src.data@[3 * k + 1],
            src.data@[3 * k + 2],
        ),
{
    let n: usize = dest.len();
    let dl: usize = src.data.len();
    proof {
        assert(3 * ((src.width as int) * (src.height as int)) == 3 * (src.width as int) * (
        src.height as int)) by (nonlinear_arith);
    }
    let mut k: usize = 0;
    while k < n
        invariant
            k <= n,
            dest@.len() == n,
            src.data@.len() == 3 * n,
            3 * n == dl,
            forall|j: int| 0 <= j < k ==> dest@[j] == pack_pixel(
                src.data@[3 * j],
                src.data@[3 * j + 1],
                src.data@[3 * j + 2],
            ),
        decreases n - k,
    {
        let r: u8 = src.data[3 * k];
        let g: u8 = src.data[3 * k + 1];
        let b: u8 = src.data[3 * k + 2];
        dest[k] = ((r as u32) << 16) | ((g as u32) << 8) | (b as u32);
        k = k + 1;
    }
}

} // verus!
