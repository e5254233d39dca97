//! Sprite-sheet animation: which explosion strip a blast plays, the source
//! rectangles of a horizontal strip, and how a frame cursor steps (looping,
//! despawning at the end, or holding on the last frame). Frame timing is
//! floating-point and left to the game shell, which steps the cursor each
//! time the current frame's duration has elapsed.
use vstd::prelude::*;
use crate::common::{PixelRect, rect_at};

verus! {

/// Which explosion strip a blast plays.
#[derive(Clone, Copy, Debug, PartialEq, Eq, Structural)]
pub enum ExplosionKind {
    /// The standard 7-frame blast.
    Standard,
    /// The 5-frame blast UFOs go up in.
    Ufo,
}

/// Frames in each explosion strip.
pub open spec fn frames_of(kind: ExplosionKind) -> nat {
    match kind {
        ExplosionKind::Standard => 7,
        ExplosionKind::Ufo => 5,
    }
}

impl Default for ExplosionKind {
    fn default() -> (k: Self)
        ensures
            k == ExplosionKind::Standard,
    {
        ExplosionKind::Standard
    }
}

impl ExplosionKind {
    /// Frames in this kind's strip.
    pub fn frame_count(self) -> (n: usize)
        ensures
            n == frames_of(self),
    {
        match self {
            ExplosionKind::Standard => 7,
            ExplosionKind::Ufo => 5,
        }
    }
}

/// Source rectangles for a horizontal strip of `count` frames of size `w` by
/// `h`: frame `i` starts at `x = i * w`.
pub fn strip_rects(w: u32, h: u32, count: u32) -> (r: Vec<PixelRect>)
    ensures
        r@.len() == count,
        forall|i: int| 0 <= i < count ==> #[trigger] r@[i] == rect_at(i * w, 0, w as int, h as int),
{
    let mut v: Vec<PixelRect> = Vec::new();
    let mut i: u32 = 0;
    while i < count
        invariant
            i <= count,
            v@.len() == i,
            forall|k: int| 0 <= k < i ==> #[trigger] v@[k] == rect_at(k * w, 0, w as int, h as int),
        decreases count - i,
    {
        proof {
            assert(i * w <= 0xffff_ffff * 0xffff_ffff) by (nonlinear_arith)
                requires
                    i <= 0xffff_ffff,
                    w <= 0xffff_ffff,
            ;
        }
        let iw: u64 = i as u64 * w as u64;
        v.push(PixelRect { min_x: iw, min_y: 0, max_x: iw + w as u64, max_y: h as u64 });
        i = i + 1;
    }
    v
}

/// Position of an animation within its frames.
#[derive(Clone, Copy, Debug, PartialEq, Eq, Structural)]
pub struct FrameCursor {
    pub current: usize,
    pub len: usize,
    pub looping: bool,
    pub despawn_on_finish: bool,
}

/// What stepping past the current frame does.
#[derive(Clone, Copy, Debug, PartialEq, Eq, Structural)]
pub enum FrameStep {
    /// Show this frame.
    Show(usize),
    /// A one-shot animation finished: remove the entity.
    Despawn,
    /// A one-shot animation finished: stay on its last frame.
    Hold,
}

/// The cursor is on one of the frames.
pub open spec fn cursor_wf(c: FrameCursor) -> bool {
    c.current < c.len
}

impl FrameCursor {
    /// A cursor on the first of `len` frames.
    pub fn new(len: usize, looping: bool, despawn_on_finish: bool) -> (c: Self)
        ensures
            c == (FrameCursor { current: 0, len, looping, despawn_on_finish }),
    {
        FrameCursor { current: 0, len, looping, despawn_on_finish }
    }

    /// Steps past the current frame: to the next one, back to the first when
    /// looping, or else to the end (despawn or hold).
    pub fn step(&mut self) -> (s: FrameStep)
        requires
            cursor_wf(*old(self)),
        ensures
            final(self).len == old(self).len,
            final(self).looping == old(self).looping,
            final(self).despawn_on_finish == old(self).despawn_on_finish,
            cursor_wf(*final(self)),
            old(self).current + 1 < old(self).len ==> s == FrameStep::Show((old(self).current + 1) as usize) && final(self).current == old(self).current + 1,
            old(self).current + 1 >= old(self).len && old(self).looping ==> s == FrameStep::Show(0) && final(self).current == 0,
            old(self).current + 1 >= old(self).len && !old(self).looping && old(self).despawn_on_finish ==> s == FrameStep::Despawn && final(self).current == old(self).current,
            old(self).current + 1 >= old(self).len && !old(self).looping && !old(self).despawn_on_finish ==> s == FrameStep::Hold && final(self).current == old(self).current,
    {
        let next = self.current + 1;
        if next < self.len {
            self.current = next;
            FrameStep::Show(next)
        } else if self.looping {
            self.current = 0;
            FrameStep::Show(0)
        } else if self.despawn_on_finish {
            FrameStep::Despawn
        } else {
            FrameStep::Hold
        }
    }
}

/// The cursor after `k` steps from frame `c`, for a looping animation of `n`
/// frames.
pub open spec fn looped(c: nat, n: nat, k: nat) -> nat
    decreases k,
{
    if k == 0 {
        c
    } else {
        let p = looped(c, n, (k - 1) as nat);
        if p + 1 < n { p + 1 } else { 0 }
    }
}

/// A looping animation cycles: after `k` steps from the first frame it shows
/// frame `k mod n`.
pub proof fn lemma_looping_cycles(n: nat, k: nat)
    requires
        n > 0,
    ensures
        looped(0, n, k) == k % n,
    decreases k,
{
    if k == 0 {
        vstd::arithmetic::div_mod::lemma_small_mod(0, n);
    } else {
        lemma_looping_cycles(n, (k - 1) as nat);
        assert(looped(0, n, (k - 1) as nat) == ((k - 1) as int) % (n as int));
        let x: int = (k - 1) as int;
        let d: int = n as int;
        let q: int = x / d;
        let p: int = x % d;
        vstd::arithmetic::div_mod::lemma_fundamental_div_mod(x, d);
        vstd::arithmetic::div_mod::lemma_mod_bound(x, d);
        assert(x == q * d + p) by (nonlinear_arith)
            requires
                x == d * (x / d) + x % d,
                q == x / d,
                p == x % d,
        ;
        if p + 1 < d {
            vstd::arithmetic::div_mod::lemma_fundamental_div_mod_converse(k as int, d, q, p + 1);
            assert(looped(0, n, k) == p + 1);
        } else {
            assert(k as int == (q + 1) * d + 0) by (nonlinear_arith)
                requires
                    x == q * d + p,
                    p + 1 == d,
                    k as int == x + 1,
            ;
            vstd::arithmetic::div_mod::lemma_fundamental_div_mod_converse(k as int, d, q + 1, 0);
            assert(looped(0, n, k) == 0);
        }
    }
}

} // verus!
