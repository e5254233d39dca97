//! The boss fight's rules: its health for the level, when player fire and
//! bombs hurt it, how many health-bar blocks are lit, its beam rhythm, and
//! what its defeat leads to.
use vstd::prelude::*;
use crate::common::{LEVELS, band_chunk_top, band_in_range, level_chunk_top_y};
use crate::level::{Level, boss_health_for};

verus! {

/// Hit points of the level-1 boss (and of the state before any level starts).
pub const BOSS_MAX_HEALTH: u32 = 40;
/// The boss hovers this far (world px) below the top of its level's chunks.
pub const BOSS_TOP_OFFSET: i64 = 70;
/// Blocks in the boss health bar.
pub const HB_SEGMENTS: u32 = 36;
/// Native x of the first health block's left edge, and the block pitch
/// (a 3 px block plus a 1 px gap).
pub const HB_TRACK_X0: u64 = 15;
pub const HB_PITCH: u64 = 4;

/// World y of the boss for level `l` (0-indexed).
pub fn boss_y(l: u32) -> (y: i64)
    requires
        band_in_range(l),
    ensures
        y == band_chunk_top(l as int) - BOSS_TOP_OFFSET,
{
    level_chunk_top_y(l) - BOSS_TOP_OFFSET
}

/// Native left edge of health block `i`: a fixed pitch, so every gap is 1 px.
pub fn block_x(i: u32) -> (x: u64)
    ensures
        x == HB_TRACK_X0 + HB_PITCH * i,
{
    HB_TRACK_X0 + HB_PITCH * i as u64
}

/// The boss fight's state.
#[derive(Clone, Copy, Debug, PartialEq, Eq, Structural)]
pub struct BossState {
    pub awakened: bool,
    pub health: u32,
    pub max_health: u32,
}

/// Lit health blocks for `health` out of `max_health`: the health fraction
/// times the block count, rounded to the nearest block (halves up). A zero
/// maximum counts as one.
pub open spec fn filled_for(health: u32, max_health: u32) -> nat {
    let m: int = if max_health == 0 { 1 } else { max_health as int };
    let r: int = (2 * HB_SEGMENTS * health + m) / (2 * m);
    if r > u32::MAX { u32::MAX as nat } else { r as nat }
}

impl Default for BossState {
    fn default() -> (r: Self)
        ensures
            r == (BossState { awakened: false, health: BOSS_MAX_HEALTH, max_health: BOSS_MAX_HEALTH }),
    {
        BossState { awakened: false, health: BOSS_MAX_HEALTH, max_health: BOSS_MAX_HEALTH }
    }
}

impl BossState {
    /// A dormant boss at full health for `level` (later warlords are tougher).
    pub fn for_level(level: &Level) -> (r: Self)
        ensures
            !r.awakened,
            r.health == boss_health_for(level.0),
            r.max_health == r.health,
    {
        let health = level.difficulty().boss_health;
        BossState { awakened: false, health, max_health: health }
    }

    /// Wakes the boss (the ship came close): the fight begins.
    pub fn awaken(&mut self)
        ensures
            *final(self) == (BossState { awakened: true, ..*old(self) }),
    {
        self.awakened = true;
    }

    /// Whether hits register: only an awakened boss with health left.
    pub fn vulnerable(&self) -> (r: bool)
        ensures
            r == (self.awakened && self.health > 0),
    {
        self.awakened && self.health > 0
    }

    /// One point of damage (never below zero).
    pub fn chip(&mut self)
        ensures
            final(self).health == (if old(self).health == 0 { 0 } else { old(self).health - 1 }),
            final(self).awakened == old(self).awakened,
            final(self).max_health == old(self).max_health,
    {
        if self.health > 0 {
            self.health = self.health - 1;
        }
    }

    /// A bomb blast: one point of damage, only while the fight is on.
    /// Returns whether it hurt the boss.
    pub fn bomb(&mut self) -> (hurt: bool)
        ensures
            hurt == old(self).vulnerable_spec(),
            hurt ==> final(self).health == old(self).health - 1,
            !hurt ==> *final(self) == *old(self),
            final(self).awakened == old(self).awakened,
            final(self).max_health == old(self).max_health,
    {
        if !self.vulnerable() {
            return false;
        }
        self.chip();
        true
    }

    pub open spec fn vulnerable_spec(&self) -> bool {
        self.awakened && self.health > 0
    }

    /// Whether the boss has been destroyed.
    pub fn defeated(&self) -> (r: bool)
        ensures
            r == (self.health == 0),
    {
        self.health == 0
    }

    /// How many health-bar blocks are lit.
    pub fn filled_cells(&self) -> (n: u32)
        ensures
            n == filled_for(self.health, self.max_health),
    {
        let m: u64 = if self.max_health == 0 { 1 } else { self.max_health as u64 };
        let h: u64 = self.health as u64;
        let q = (72 * h + m) / (2 * m);
        if q > u32::MAX as u64 {
            u32::MAX
        } else {
            q as u32
        }
    }
}

/// Whether health block `index` is lit when `filled` blocks are.
pub fn cell_lit(index: u32, filled: u32) -> (r: bool)
    ensures
        r == (index < filled),
{
    index < filled
}

/// A full bar lights every block, an empty one none, and the bar never
/// shows more blocks for less health.
pub proof fn lemma_health_bar(h1: u32, h2: u32, m: u32)
    requires
        h1 <= h2,
    ensures
        m > 0 ==> filled_for(m, m) == HB_SEGMENTS,
        filled_for(0, m) == 0,
        filled_for(h1, m) <= filled_for(h2, m),
{
    let mm: int = if m == 0 { 1 } else { m as int };
    let a: int = h1 as int;
    let b: int = h2 as int;
    assert((72 * a + mm) / (2 * mm) <= (72 * b + mm) / (2 * mm)) by (nonlinear_arith)
        requires
            a <= b,
            mm > 0,
    ;
    assert(mm / (2 * mm) == 0) by (nonlinear_arith)
        requires
            mm > 0,
    ;
    if m > 0 {
        assert((72 * mm + mm) / (2 * mm) == 36) by (nonlinear_arith)
            requires
                mm > 0,
        ;
    }
}

/// What a boss's defeat leads to.
#[derive(Clone, Copy, Debug, PartialEq, Eq, Structural)]
pub enum BossDefeat {
    /// The last warlord fell: a pause, then the victory debrief.
    FinalVictory,
    /// A mid-run warlord fell: the next level's intro begins.
    NextLevel,
}

/// Advances the campaign when a boss dies: the final level ends the game in
/// victory; any earlier level moves on to the next one.
pub fn boss_defeated(level: &mut Level) -> (r: BossDefeat)
    ensures
        old(level).0 >= LEVELS ==> r == BossDefeat::FinalVictory && *final(level) == *old(level),
        old(level).0 < LEVELS ==> r == BossDefeat::NextLevel && final(level).0 == old(level).0 + 1,
{
    if level.0 >= LEVELS {
        BossDefeat::FinalVictory
    } else {
        level.0 = level.0 + 1;
        BossDefeat::NextLevel
    }
}

/// The boss's beam rhythm: firing for a burst, then resting.
#[derive(Clone, Copy, Debug, PartialEq, Eq, Structural)]
pub struct BossFire {
    pub firing: bool,
}

/// What to do when the beam timer runs out.
#[derive(Clone, Copy, Debug, PartialEq, Eq, Structural)]
pub enum BeamAction {
    /// Beams vanish; rest for the level's cooldown.
    StopAndRest,
    /// Emit a held beam from each wing for the burst duration.
    StartBurst,
}

impl BossFire {
    /// Toggles between firing and resting when the current phase's timer
    /// finishes.
    pub fn on_timer_finished(&mut self) -> (a: BeamAction)
        ensures
            final(self).firing == !old(self).firing,
            old(self).firing ==> a == BeamAction::StopAndRest,
            !old(self).firing ==> a == BeamAction::StartBurst,
    {
        if self.firing {
            self.firing = false;
            BeamAction::StopAndRest
        } else {
            self.firing = true;
            BeamAction::StartBurst
        }
    }
}

} // verus!
