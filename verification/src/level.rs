//! Level progression and the level-scaled difficulty knobs held in whole
//! numbers.
use vstd::prelude::*;
use crate::combat::GameProgress;
use crate::common::LEVELS;
use crate::player::Weapon;

verus! {

/// The current level, 1-based.
#[derive(Clone, Copy, Debug, PartialEq, Eq, Structural)]
pub struct Level(pub u32);

impl Default for Level {
    fn default() -> (r: Self)
        ensures
            r.0 == 1,
    {
        Level(1)
    }
}

/// The whole-number knobs that scale with the level: UFOs per swarm and the
/// boss's hit points. (The knobs measured in seconds and pixels per second
/// are floating-point and are computed by the game shell from the same
/// interpolation.)
#[derive(Clone, Copy, Debug, PartialEq, Eq, Structural)]
pub struct Difficulty {
    pub ufo_swarm_size: u32,
    pub boss_health: u32,
}

/// How many quarters of the campaign lie behind level `level`: 0 on level 1,
/// 4 on the last level (each level is one quarter of the way from the first
/// to the fifth).
pub open spec fn quarters_done(level: u32) -> nat {
    if level == 0 { 0 } else { (level - 1) as nat }
}

/// `x / 4` rounded to the nearest whole number, halves rounded up, saturated
/// to `u32`.
pub open spec fn round_quarter(x: nat) -> nat {
    let r = (x + 2) / 4;
    if r > u32::MAX { u32::MAX as nat } else { r }
}

/// A knob interpolated linearly from `base` on level 1 to `base + rise` on
/// the last level (and extrapolated beyond it), rounded to the nearest whole
/// number: `base + rise * (level - 1) / 4`.
pub open spec fn interpolated(base: nat, rise: nat, level: u32) -> nat {
    round_quarter(4 * base + rise * quarters_done(level))
}

/// UFOs per swarm: 5 on level 1, growing to 8 on the last level.
pub open spec fn swarm_size_for(level: u32) -> nat {
    interpolated(5, 3, level)
}

/// The boss's hit points: 40 on level 1, growing to 70 on the last level.
pub open spec fn boss_health_for(level: u32) -> nat {
    interpolated(40, 30, level)
}

/// `(4 * base + step * k + 2) / 4`, saturated to `u32`.
fn round_interpolation(base: u64, step: u64, k: u32) -> (r: u32)
    requires
        base <= 1000,
        step <= 1000,
    ensures
        r == round_quarter((4 * base + step * k) as nat),
{
    let kk: u64 = k as u64;
    assert(step * kk <= 1000 * 0xffff_ffff) by (nonlinear_arith)
        requires
            step <= 1000,
            kk <= 0xffff_ffff,
    ;
    let x: u64 = 4 * base + step * kk + 2;
    let q = x / 4;
    if q > u32::MAX as u64 {
        u32::MAX
    } else {
        q as u32
    }
}

impl Level {
    /// The whole-number difficulty knobs for this level.
    pub fn difficulty(&self) -> (d: Difficulty)
        ensures
            d.ufo_swarm_size == swarm_size_for(self.0),
            d.boss_health == boss_health_for(self.0),
    {
        let k: u32 = if self.0 == 0 { 0 } else { self.0 - 1 };
        Difficulty {
            ufo_swarm_size: round_interpolation(5, 3, k),
            boss_health: round_interpolation(40, 30, k),
        }
    }
}

/// A fresh game, leaving the title: back to level 1 with a cleared score and
/// the starting single gun. Health and game over are untouched (the level
/// start refills them).
pub fn start_new_game(level: &mut Level, progress: &mut GameProgress, weapon: &mut Weapon)
    ensures
        final(level).0 == 1,
        *final(progress) == (GameProgress { score: 0, ..*old(progress) }),
        *final(weapon) == Weapon::Single,
{
    level.0 = 1;
    progress.score = 0;
    *weapon = Weapon::Single;
}

/// The knobs match the tuning table at both ends of the campaign, never
/// shrink as the levels rise, and reach each level's value between them.
pub proof fn lemma_difficulty_scales(a: u32, b: u32)
    requires
        1 <= a <= b,
    ensures
        swarm_size_for(1) == 5,
        swarm_size_for(LEVELS) == 8,
        boss_health_for(1) == 40,
        boss_health_for(LEVELS) == 70,
        swarm_size_for(a) <= swarm_size_for(b),
        boss_health_for(a) <= boss_health_for(b),
{
    assert((4 * 5 + 3 * quarters_done(a) + 2) / 4 <= (4 * 5 + 3 * quarters_done(b) + 2) / 4)
        by (nonlinear_arith)
        requires
            quarters_done(a) <= quarters_done(b),
    ;
    assert((4 * 40 + 30 * quarters_done(a) + 2) / 4 <= (4 * 40 + 30 * quarters_done(b) + 2) / 4)
        by (nonlinear_arith)
        requires
            quarters_done(a) <= quarters_done(b),
    ;
}

} // verus!
