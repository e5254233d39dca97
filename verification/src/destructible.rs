//! Destructible buildings and units: each player hit advances the prop to its
//! next damage frame, and the last frame is the destroyed wreck.
use vstd::prelude::*;
use crate::common::PixelRect;

verus! {

/// Number of player hits a destructible object takes before it's destroyed.
pub const DESTRUCTIBLE_HP: u32 = 3;

/// A destructible prop's damage state: the frame to show after each
/// successive hit (the last is the destroyed look, and the count is its hit
/// points), the hits taken so far, and its undamaged frame.
#[derive(Debug)]
pub struct Destructible {
    pub stages: Vec<PixelRect>,
    pub taken: usize,
    pub intact: PixelRect,
}

/// What one hit did.
#[derive(Clone, Copy, Debug, PartialEq, Eq, Structural)]
pub struct HitOutcome {
    /// The damage frame to show now, if the stage list has one for this hit.
    pub frame: Option<PixelRect>,
    /// The prop is now a wreck: its hit box goes and it explodes.
    pub destroyed: bool,
}

impl Destructible {
    /// A prop that has taken no hits.
    pub fn new(stages: Vec<PixelRect>, intact: PixelRect) -> (d: Self)
        ensures
            d.stages@ == stages@,
            d.taken == 0,
            d.intact == intact,
    {
        Destructible { stages, taken: 0, intact }
    }

    /// One player hit.
    pub fn hit(&mut self) -> (o: HitOutcome)
        requires
            old(self).taken < usize::MAX,
        ensures
            final(self).taken == old(self).taken + 1,
            final(self).stages@ == old(self).stages@,
            final(self).intact == old(self).intact,
            o.frame == (if old(self).taken < old(self).stages@.len() {
                Some(old(self).stages@[old(self).taken as int])
            } else {
                None
            }),
            o.destroyed == (final(self).taken >= old(self).stages@.len()),
    {
        self.taken = self.taken + 1;
        let frame = if self.taken - 1 < self.stages.len() {
            Some(self.stages[self.taken - 1])
        } else {
            None
        };
        HitOutcome { frame, destroyed: self.taken >= self.stages.len() }
    }

    /// Repairs the prop at level start. Returns the frame to restore (and that
    /// its hit box must come back) if it had taken any damage.
    pub fn repair(&mut self) -> (restore: Option<PixelRect>)
        ensures
            final(self).taken == 0,
            final(self).stages@ == old(self).stages@,
            final(self).intact == old(self).intact,
            restore == (if old(self).taken == 0 { None } else { Some(old(self).intact) }),
    {
        if self.taken == 0 {
            return None;
        }
        self.taken = 0;
        Some(self.intact)
    }
}

} // verus!
