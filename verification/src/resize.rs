use vstd::prelude::*;

use crate::plane::RgbaPlane;

verus! {

/// The bytes of the plane that scaling the given source bytes (of the given
/// dimensions) to `target_w` by `target_h` produces. The scaling is done by
/// `image::imageops::resize` with its nearest filter; its output depends on
/// these arguments alone, so the result only carries a name here.
pub uninterp spec fn resized_rgba(
    data: Seq<u8>,
    width: u32,
    height: u32,
    target_w: u32,
    target_h: u32,
) -> Seq<u8>;

/// Relies on `image::imageops::resize` (nearest filter): it returns an image
/// of exactly the requested dimensions, four bytes per pixel, computed from
/// the source pixels and the four dimension arguments alone.
#[verifier::external_body]
pub(crate) fn resize_rgba(src: &RgbaPlane, target_w: u32, target_h: u32) -> (r: RgbaPlane)
    requires
        src.wf(),
        target_w > 0,
        target_h > 0,
    ensures
        r.width == target_w,
        r.height == target_h,
        r.data@.len() == 4 * (target_w as int) * (target_h as int),
        r.data@ == resized_rgba(src.data@, src.width, src.height, target_w, target_h),
{
    let img = image::RgbaImage::from_raw(src.width, src.height, src.data.clone()).unwrap();
    let out = image::imageops::resize(&img, target_w, target_h, image::imageops::FilterType::Nearest);
    RgbaPlane { width: target_w, height: target_h, data: out.into_raw() }
}

} // verus!
