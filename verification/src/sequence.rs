use vstd::prelude::*;

use crate::plane::RgbaPlane;

verus! {

/// One decoded animation frame: its pixels and how long it stays visible.
pub struct SourceFrame {
    pub pixels: RgbaPlane,
    pub duration_ms: u64,
}

/// The decoded source data of one loaded file: a single still plane, or an
/// ordered, non-empty list of timed frames.
pub enum Sequence {
    Static(RgbaPlane),
    Animated(Vec<SourceFrame>),
}

impl Sequence {
    /// A static sequence holds one well-formed plane; an animated sequence
    /// holds at least one frame, each with a well-formed plane.
    pub open spec fn wf(self) -> bool {
        match self {
            Sequence::Static(p) => p.wf(),
            Sequence::Animated(frames) => frames@.len() >= 1 && forall|i: int|
                0 <= i < frames@.len() ==> (#[trigger] frames@[i]).pixels.wf(),
        }
    }

    pub open spec fn is_animated(self) -> bool {
        self is Animated
    }

    /// How many source frames there are; a static sequence counts as one.
    pub open spec fn frame_count(self) -> int {
        match self {
            Sequence::Static(_) => 1,
            Sequence::Animated(frames) => frames@.len() as int,
        }
    }

    /// The pixels of frame `i`; for a static sequence, of the single plane.
    pub open spec fn frame_pixels(self, i: int) -> RgbaPlane {
        match self {
            Sequence::Static(p) => p,
            Sequence::Animated(frames) => frames@[i].pixels,
        }
    }

    /// The display duration of frame `i`; a static sequence has none.
    pub open spec fn duration_at(self, i: int) -> u64 {
        match self {
            Sequence::Static(_) => 0,
            Sequence::Animated(frames) => frames@[i].duration_ms,
        }
    }

    pub fn animated(&self) -> (b: bool)
        ensures
            b == self.is_animated(),
    {
        match self {
            Sequence::Static(_) => false,
            Sequence::Animated(_) => true,
        }
    }

    pub fn num_frames(&self) -> (n: usize)
        ensures
            n == self.frame_count(),
    {
        match self {
            Sequence::Static(_) => 1,
            Sequence::Animated(frames) => frames.len(),
        }
    }

    pub fn pixels_at(&self, i: usize) -> (p: &RgbaPlane)
        requires
            i < self.frame_count(),
        ensures
            *p == self.frame_pixels(i as int),
    {
        match self {
            Sequence::Static(p) => p,
            Sequence::Animated(frames) => &frames[i].pixels,
        }
    }

    pub fn duration_ms_at(&self, i: usize) -> (d: u64)
        requires
            i < self.frame_count(),
        ensures
            d == self.duration_at(i as int),
    {
        match self {
            Sequence::Static(_) => 0,
            Sequence::Animated(frames) => frames[i].duration_ms,
        }
    }

    /// True iff the sequence is well formed: at least one frame, and every
    /// plane's buffer length matching its dimensions.
    pub fn validate(&self) -> (b: bool)
        ensures
            b == self.wf(),
    {
        match self {
            Sequence::Static(p) => p.check_wf(),
            Sequence::Animated(frames) => {
                if frames.len() == 0 {
                    return false;
                }
                let mut i: usize = 0;
                while i < frames.len()
                    invariant
                        *self == Sequence::Animated(*frames),
                        i <= frames@.len(),
                        forall|j: int| 0 <= j < i ==> (#[trigger] frames@[j]).pixels.wf(),
                    decreases frames@.len() - i,
                {
                    if !frames[i].pixels.check_wf() {
                        return false;
                    }
                    i = i + 1;
                }
                true
            },
        }
    }
}

} // verus!
