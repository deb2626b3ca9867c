//! Sprite frame tables: per-sprite pixel-space frame origins, a shared frame
//! size, and a fractional playback position advanced by elapsed time.

use vstd::prelude::*;
use crate::fx::{FX_ONE, FX_LIMIT, fx_in_range, fx_mul_spec, fx_mul};

verus! {

/// Pixel-space origin of one animation frame on the texture atlas.
#[derive(Clone, Copy, PartialEq, Eq, Structural, Debug)]
pub struct FramePos {
    pub x: u32,
    pub y: u32,
}

/// A sprite: an ordered table of frame origins on the atlas, the common pixel
/// size of every frame, and fixed-point playback state. A static sprite has
/// `num_frames == 0` and never advances.
pub struct Sprite {
    pub frames: Vec<FramePos>,
    pub width: u32,
    pub height: u32,
    pub num_frames: i64,
    pub frame: i64,
    pub fps: i64,
}

/// The playback position after `dt` elapsed: advance by `fps * dt`, then wrap
/// once if the result exceeds `num_frames` (at most one wrap per step).
pub open spec fn sprite_advanced(frame: int, fps: int, dt: int, num_frames: int) -> int {
    let f = frame + fx_mul_spec(fps, dt);
    if f > num_frames {
        f - num_frames
    } else {
        f
    }
}

impl Sprite {
    /// Playback state within the fixed-point range (rules out overflow when
    /// advancing).
    pub open spec fn playback_in_range(&self) -> bool {
        &&& fx_in_range(self.frame as int)
        &&& fx_in_range(self.fps as int)
        &&& fx_in_range(self.num_frames as int)
    }

    /// The frame-table index the playback position currently selects.
    pub open spec fn frame_index(&self) -> int {
        self.frame as int / FX_ONE as int
    }

    pub fn new(frames: Vec<FramePos>, width: u32, height: u32, num_frames: i64, fps: i64) -> (s: Sprite)
        ensures
            s.frames@ == frames@,
            s.width == width,
            s.height == height,
            s.num_frames == num_frames,
            s.fps == fps,
            s.frame == 0,
    {
        Sprite { frames, width, height, num_frames, frame: 0, fps }
    }

    /// Advance playback by `dt`. A static sprite (`num_frames <= 0`) never
    /// changes its playback position, regardless of elapsed time; only an
    /// animated sprite needs the fixed-point bounds that rule out overflow.
    pub fn update(&mut self, dt: i64)
        requires
            old(self).num_frames > 0 ==> 0 <= dt <= FX_LIMIT,
            old(self).num_frames > 0 ==> old(self).playback_in_range(),
        ensures
            final(self).frames@ == old(self).frames@,
            final(self).width == old(self).width,
            final(self).height == old(self).height,
            final(self).num_frames == old(self).num_frames,
            final(self).fps == old(self).fps,
            old(self).num_frames > 0 ==> final(self).frame as int == sprite_advanced(
                old(self).frame as int,
                old(self).fps as int,
                dt as int,
                old(self).num_frames as int,
            ),
            old(self).num_frames <= 0 ==> final(self).frame == old(self).frame,
    {
        if self.num_frames > 0 {
            let step: i64 = fx_mul(self.fps, dt);
            self.frame = self.frame + step;
            if self.frame > self.num_frames {
                self.frame = self.frame - self.num_frames;
            }
        }
    }

    /// The frame origin at the current playback position. Selecting a frame
    /// outside the table is a programming error, ruled out up front.
    pub fn current_frame(&self) -> (p: FramePos)
        requires
            0 <= self.frame,
            self.frame_index() < self.frames@.len(),
        ensures
            p == self.frames@[self.frame_index()],
    {
        let q: u64 = (self.frame as u64) / (FX_ONE as u64);
        let n: usize = self.frames.len();
        proof {
            assert(q == self.frame_index());
            assert(q < n);
        }
        let idx: usize = q as usize;
        self.frames[idx]
    }
}

} // verus!
