use vstd::prelude::*;

use crate::plane::{rgb_of_rgba, rgba_plane_to_rgb, RgbPlane, RgbaPlane};
use crate::resize::{resize_rgba, resized_rgba};
use crate::sequence::Sequence;

verus! {

/// The bytes the cache must hold for source plane `src` scaled to
/// `target_w` by `target_h`: the scaled plane with its alpha bytes dropped.
pub open spec fn expected_data(src: RgbaPlane, target_w: u32, target_h: u32) -> Seq<u8> {
    rgb_of_rgba(resized_rgba(src.data@, src.width, src.height, target_w, target_h))
}

/// A cache entry is valid for source plane `src` at a target size iff it is
/// a well-formed plane of exactly that size holding the expected bytes.
pub open spec fn entry_matches(p: RgbPlane, src: RgbaPlane, target_w: u32, target_h: u32) -> bool {
    &&& p.width == target_w
    &&& p.height == target_h
    &&& p.wf()
    &&& p.data@ == expected_data(src, target_w, target_h)
}

/// Memoization table from frame index to a plane pre-scaled to the recorded
/// target size. Entries start empty and are filled on first access; a size
/// change empties the whole table at once, so planes for two different sizes
/// never coexist.
pub struct ResizeCache {
    pub width: u32,
    pub height: u32,
    pub entries: Vec<Option<RgbPlane>>,
}

impl ResizeCache {
    /// One entry per frame of `s`, and every filled entry holds exactly the
    /// scaled plane of its frame at the recorded size.
    pub open spec fn consistent_with(self, s: Sequence) -> bool {
        &&& self.entries@.len() == s.frame_count()
        &&& forall|i: int|
            0 <= i < self.entries@.len() && (#[trigger] self.entries@[i]) is Some
                ==> entry_matches(self.entries@[i]->0, s.frame_pixels(i), self.width, self.height)
    }

    /// An empty cache for `n` frames; nothing is scaled yet.
    pub fn empty(n: usize) -> (r: ResizeCache)
        ensures
            r.width == 0,
            r.height == 0,
            r.entries@.len() == n,
            forall|i: int| 0 <= i < n ==> (#[trigger] r.entries@[i]) is None,
    {
        ResizeCache { width: 0, height: 0, entries: none_entries(n) }
    }

    /// Ensures the entry for frame `index` of `seq` holds a plane scaled to
    /// `target_w` by `target_h`.
    ///
    /// If the recorded size differs from the target, every entry is first
    /// discarded, so no plane of the old size survives. At a constant size,
    /// every filled entry — the requested one included — is returned exactly
    /// as it was: a given frame is scaled at most once per size.
    pub fn get_or_create(&mut self, seq: &Sequence, index: usize, target_w: u32, target_h: u32)
        requires
            seq.wf(),
            old(self).consistent_with(*seq),
            index < seq.frame_count(),
            target_w > 0,
            target_h > 0,
        ensures
            final(self).consistent_with(*seq),
            final(self).width == target_w,
            final(self).height == target_h,
            final(self).entries@.len() == old(self).entries@.len(),
            final(self).entries@[index as int] is Some,
            old(self).width == target_w && old(self).height == target_h ==> forall|i: int|
                0 <= i < old(self).entries@.len() && i != index ==> final(self).entries@[i] == old(
                self,
                ).entries@[i],
            old(self).width == target_w && old(self).height == target_h && old(
                self,
            ).entries@[index as int] is Some ==> final(self).entries@[index as int] == old(
                self,
            ).entries@[index as int],
            !(old(self).width == target_w && old(self).height == target_h) ==> forall|i: int|
                0 <= i < final(self).entries@.len() && i != index ==> (
                #[trigger] final(self).entries@[i]) is None,
    {
        if self.width != target_w || self.height != target_h {
            let n: usize = self.entries.len();
            self.width = target_w;
            self.height = target_h;
            self.entries = none_entries(n);
        }
        if self.entries[index].is_none() {
            let scaled: RgbaPlane = resize_rgba(seq.pixels_at(index), target_w, target_h);
            let plane: RgbPlane = rgba_plane_to_rgb(&scaled);
            self.entries[index] = Some(plane);
        }
    }

    /// The cached plane for frame `index`.
    pub fn plane_at(&self, index: usize) -> (r: &RgbPlane)
        requires
            index < self.entries@.len(),
            self.entries@[index as int] is Some,
        ensures
            *r == self.entries@[index as int]->0,
    {
        self.entries[index].as_ref().unwrap()
    }
}

/// A vector of `n` empty cache slots.
fn none_entries(n: usize) -> (r: Vec<Option<RgbPlane>>)
    ensures
        r@.len() == n,
        forall|i: int| 0 <= i < n ==> (#[trigger] r@[i]) is None,
{
    let mut v: Vec<Option<RgbPlane>> = Vec::new();
    while v.len() < n
        invariant
            v@.len() <= n,
            forall|i: int| 0 <= i < v@.len() ==> (#[trigger] v@[i]) is None,
        decreases n - v@.len(),
    {
        v.push(None);
    }
    v
}

} // verus!
