use vstd::prelude::*;

use crate::cache::{expected_data, ResizeCache};
use crate::clock::{spec_tick, PlaybackClock};
use crate::compositor::{composite, pack_pixel};
use crate::plane::RgbPlane;
use crate::sequence::Sequence;

verus! {

/// The playback controller: owns the decoded sequence, the resize cache and
/// the playback clock, and answers one `render` call per render opportunity.
pub struct Viewer {
    pub sequence: Sequence,
    pub cache: ResizeCache,
    pub clock: PlaybackClock,
}

impl Viewer {
    /// The sequence is well formed, the cache describes exactly its frames,
    /// and the clock points at an existing frame.
    pub open spec fn wf(self) -> bool {
        &&& self.sequence.wf()
        &&& self.cache.consistent_with(self.sequence)
        &&& self.clock.current_index < self.sequence.frame_count()
    }

    /// The frame a render call shows: the clock's current frame when
    /// animated, the single plane when static.
    pub open spec fn displayed_index(self) -> int {
        if self.sequence.is_animated() {
            self.clock.current_index as int
        } else {
            0
        }
    }

    /// Builds a controller over `sequence`, starting playback at frame 0
    /// with the timer set to `now_ms` and nothing scaled yet. Returns `None`
    /// exactly when the sequence is not well formed.
    pub fn new(sequence: Sequence, now_ms: u64) -> (r: Option<Viewer>)
        ensures
            r is Some <==> sequence.wf(),
            r is Some ==> ({
                let v = r->0;
                &&& v.wf()
                &&& v.sequence == sequence
                &&& v.clock.current_index == 0
                &&& v.clock.last_advance_ms == now_ms
                &&& forall|i: int|
                    0 <= i < v.cache.entries@.len() ==> (#[trigger] v.cache.entries@[i]) is None
            }),
    {
        if !sequence.validate() {
            return None;
        }
        let n: usize = sequence.num_frames();
        Some(
            Viewer {
                sequence,
                cache: ResizeCache::empty(n),
                clock: PlaybackClock { current_index: 0, last_advance_ms: now_ms },
            },
        )
    }

    /// One render tick: resolve the current frame, make sure its plane is
    /// cached at the target size, composite it into `dest`, and — for an
    /// animated sequence — advance the clock afterwards and ask the host to
    /// render again soon. A target with a zero dimension is "not yet ready":
    /// the call changes nothing. A static sequence never touches the clock.
    pub fn render(&mut self, target_w: u32, target_h: u32, now_ms: u64, dest: &mut Vec<u32>) -> (
        redraw: bool)
        requires
            old(self).wf(),
            now_ms >= old(self).clock.last_advance_ms,
            old(dest)@.len() == (target_w as int) * (target_h as int),
        ensures
            final(self).wf(),
            final(self).sequence == old(self).sequence,
            final(dest)@.len() == old(dest)@.len(),
            target_w == 0 || target_h == 0 ==> *final(self) == *old(self) && final(dest)@ == old(
                dest,
            )@ && !redraw,
            target_w > 0 && target_h > 0 ==> ({
                let shown = old(self).displayed_index();
                let bytes = expected_data(
                    old(self).sequence.frame_pixels(shown),
                    target_w,
                    target_h,
                );
                &&& redraw == old(self).sequence.is_animated()
                &&& forall|k: int|
                    0 <= k < final(dest)@.len() ==> final(dest)@[k] == pack_pixel(
                        bytes[3 * k],
                        bytes[3 * k + 1],
                        bytes[3 * k + 2],
                    )
                &&& final(self).cache.width == target_w
                &&& final(self).cache.height == target_h
                &&& final(self).cache.entries@[shown] is Some
                &&& (old(self).cache.width == target_w && old(self).cache.height == target_h
                    ==> forall|i: int|
                    0 <= i < old(self).cache.entries@.len() && i != shown
                        ==> final(self).cache.entries@[i] == old(self).cache.entries@[i])
                &&& (!old(self).sequence.is_animated() ==> final(self).clock == old(self).clock)
                &&& (old(self).sequence.is_animated() ==> final(self).clock == spec_tick(
                    old(self).clock,
                    now_ms,
                    old(self).sequence.duration_at(shown),
                    old(self).sequence.frame_count(),
                ).0)
            }),
    {
        if target_w == 0 || target_h == 0 {
            return false;
        }
        let animated: bool = self.sequence.animated();
        let shown: usize = if animated {
            self.clock.current_index
        } else {
            0
        };
        self.cache.get_or_create(&self.sequence, shown, target_w, target_h);
        let plane: &RgbPlane = self.cache.plane_at(shown);
        composite(plane, dest);
        if animated {
            let n: usize = self.sequence.num_frames();
            let dur: u64 = self.sequence.duration_ms_at(shown);
            self.clock.tick(now_ms, dur, n);
            true
        } else {
            false
        }
    }

    /// Answers a resize signal: the whole cache is invalidated — its
    /// recorded size becomes the new target and every entry is emptied — and
    /// the playback clock is left untouched, so a resize never skips or
    /// repeats a frame.
    pub fn handle_resize(&mut self, new_w: u32, new_h: u32)
        requires
            old(self).wf(),
        ensures
            final(self).wf(),
            final(self).sequence == old(self).sequence,
            final(self).clock == old(self).clock,
            final(self).cache.width == new_w,
            final(self).cache.height == new_h,
            final(self).cache.entries@.len() == old(self).cache.entries@.len(),
            forall|i: int|
                0 <= i < final(self).cache.entries@.len() ==> (
                #[trigger] final(self).cache.entries@[i]) is None,
    {
        let n: usize = self.cache.entries.len();
        let mut fresh: ResizeCache = ResizeCache::empty(n);
        fresh.width = new_w;
        fresh.height = new_h;
        self.cache = fresh;
    }
}

} // verus!
