use vstd::prelude::*;

verus! {

use vstd::arithmetic::div_mod::lemma_fundamental_div_mod_converse;

/// Playback position: the index of the frame now shown, and the reading of
/// the host's monotonic clock (in milliseconds) when it last changed.
pub struct PlaybackClock {
    pub current_index: usize,
    pub last_advance_ms: u64,
}

/// The frame index after one advance: one step forward, wrapping to the
/// start after the last of `n` frames.
pub open spec fn next_index(current: int, n: int) -> int {
    if current + 1 >= n {
        0
    } else {
        current + 1
    }
}

/// What one `tick` call does: if the time since the last advance has reached
/// the shown frame's display duration, move one frame forward (wrapping) and
/// restart the timer; otherwise change nothing.
pub open spec fn spec_tick(c: PlaybackClock, now_ms: u64, duration_ms: u64, n: int) -> (
    PlaybackClock,
    bool,
) {
    if now_ms - c.last_advance_ms >= duration_ms {
        (
            PlaybackClock {
                current_index: next_index(c.current_index as int, n) as usize,
                last_advance_ms: now_ms,
            },
            true,
        )
    } else {
        (c, false)
    }
}

impl PlaybackClock {
    /// Advances the clock by one render tick: if at least `duration_ms`
    /// milliseconds have passed since the last advance, step to the next of
    /// the `n` frames (wrapping) and record `now_ms`; otherwise leave the
    /// state untouched. Never moves more than one frame per call, however
    /// much time has passed.
    pub fn tick(&mut self, now_ms: u64, duration_ms: u64, n: usize) -> (advanced: bool)
        requires
            n >= 1,
            old(self).current_index < n,
            now_ms >= old(self).last_advance_ms,
        ensures
            *final(self) == spec_tick(*old(self), now_ms, duration_ms, n as int).0,
            advanced == spec_tick(*old(self), now_ms, duration_ms, n as int).1,
            final(self).current_index < n,
            final(self).current_index == old(self).current_index || final(self).current_index == (
            old(self).current_index + 1) % (n as int),
    {
        proof {
            lemma_next_index_is_mod(self.current_index as int, n as int);
        }
        if now_ms - self.last_advance_ms >= duration_ms {
            self.last_advance_ms = now_ms;
            self.current_index = if self.current_index + 1 >= n {
                0
            } else {
                self.current_index + 1
            };
            true
        } else {
            false
        }
    }
}

/// One advance step lands on `(current + 1) mod n`: indices follow the cycle
/// 0, 1, ..., n - 1, 0, ...
pub proof fn lemma_next_index_is_mod(current: int, n: int)
    requires
        0 <= current < n,
    ensures
        next_index(current, n) == (current + 1) % n,
{
    if current + 1 >= n {
        lemma_fundamental_div_mod_converse(current + 1, n, 1, 0);
    } else {
        lemma_fundamental_div_mod_converse(current + 1, n, 0, current + 1);
    }
}

/// A tick never skips: the index either stays or moves one step forward in
/// the cycle, and it always stays inside [0, n).
pub proof fn lemma_tick_steps_at_most_one(c: PlaybackClock, now_ms: u64, duration_ms: u64, n: int)
    requires
        1 <= n <= usize::MAX,
        0 <= c.current_index < n,
    ensures
        0 <= spec_tick(c, now_ms, duration_ms, n).0.current_index < n,
        spec_tick(c, now_ms, duration_ms, n).0.current_index == c.current_index || spec_tick(
            c,
            now_ms,
            duration_ms,
            n,
        ).0.current_index == (c.current_index + 1) % n,
        !spec_tick(c, now_ms, duration_ms, n).1 ==> spec_tick(c, now_ms, duration_ms, n).0 == c,
{
    lemma_next_index_is_mod(c.current_index as int, n);
}

/// With a single frame the clock can only ever point at frame 0: a tick on a
/// one-frame animation wraps straight back to the start.
pub proof fn lemma_tick_single_frame(c: PlaybackClock, now_ms: u64, duration_ms: u64)
    requires
        c.current_index < 1,
    ensures
        spec_tick(c, now_ms, duration_ms, 1).0.current_index == 0,
{
}

} // verus!
