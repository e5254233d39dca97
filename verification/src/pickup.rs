//! Pickups dropped by shot-down enemies and what collecting each one does.
use vstd::prelude::*;
use crate::combat::{GameProgress, KILL_REWARD, MAX_HEALTH, progress_wf};
use crate::common::{PixelRect, rect_at};
use crate::player::{Weapon, upgraded};
use crate::random::random_index;

verus! {

/// Health restored by a repair pickup (capped at the maximum).
pub const REPAIR_AMOUNT: u32 = 4;
/// Side of a pickup icon in its sheet (native px).
pub const PICKUP_SIZE: u64 = 16;

/// The four pickup kinds, in the order of their frames in the sheet.
#[derive(Clone, Copy, Debug, PartialEq, Eq, Structural)]
pub enum PickupKind {
    /// Some seconds of immunity to all damage.
    Invincible,
    /// Restores some health.
    Repair,
    /// Upgrades the weapon one step.
    Weapon,
    /// Destroys every enemy on screen (and chips the boss).
    Bomb,
}

/// Position of a kind in the sheet.
pub open spec fn kind_index(k: PickupKind) -> nat {
    match k {
        PickupKind::Invincible => 0,
        PickupKind::Repair => 1,
        PickupKind::Weapon => 2,
        PickupKind::Bomb => 3,
    }
}

/// Health after a repair: four more, capped at the maximum.
pub open spec fn repaired_health(h: u32) -> u32 {
    if h + REPAIR_AMOUNT > MAX_HEALTH { MAX_HEALTH } else { (h + REPAIR_AMOUNT) as u32 }
}

impl PickupKind {
    /// Every kind, in sheet order.
    pub fn all() -> (r: [PickupKind; 4])
        ensures
            r@ == seq![PickupKind::Invincible, PickupKind::Repair, PickupKind::Weapon, PickupKind::Bomb],
    {
        [PickupKind::Invincible, PickupKind::Repair, PickupKind::Weapon, PickupKind::Bomb]
    }

    /// Position of this kind in the sheet.
    pub fn index(self) -> (i: usize)
        ensures
            i == kind_index(self),
    {
        match self {
            PickupKind::Invincible => 0,
            PickupKind::Repair => 1,
            PickupKind::Weapon => 2,
            PickupKind::Bomb => 3,
        }
    }

    /// Source rectangle of this kind's 16x16 frame within its strip.
    pub fn frame(self) -> (r: PixelRect)
        ensures
            r == rect_at(PICKUP_SIZE * kind_index(self), 0, PICKUP_SIZE as int, PICKUP_SIZE as int),
    {
        let x = self.index() as u64 * PICKUP_SIZE;
        PixelRect { min_x: x, min_y: 0, max_x: x + PICKUP_SIZE, max_y: PICKUP_SIZE }
    }

    /// The kind at sheet position `i`.
    pub fn from_index(i: usize) -> (k: PickupKind)
        requires
            i < 4,
        ensures
            kind_index(k) == i,
    {
        if i == 0 {
            PickupKind::Invincible
        } else if i == 1 {
            PickupKind::Repair
        } else if i == 2 {
            PickupKind::Weapon
        } else {
            PickupKind::Bomb
        }
    }

    /// A uniformly random kind, for a drop.
    pub fn random() -> (k: PickupKind)
        ensures
            kind_index(k) < 4,
    {
        PickupKind::from_index(random_index(4))
    }
}

/// Applies a collected pickup to the run, and reports whether it was
/// collected. Nothing is collected after a game over: progress and weapon
/// stay as they are. Otherwise a bomb also scores every enemy it wipes
/// (`enemies_on_screen` of them), and invincibility changes nothing here (the
/// ship gains its shield).
pub fn collect(
    kind: PickupKind,
    progress: &mut GameProgress,
    weapon: &mut Weapon,
    enemies_on_screen: u32,
) -> (collected: bool)
    requires
        !old(progress).game_over && kind == PickupKind::Repair ==> old(progress).health + REPAIR_AMOUNT <= u32::MAX,
        !old(progress).game_over && kind == PickupKind::Bomb ==> old(progress).score + KILL_REWARD * enemies_on_screen <= u32::MAX,
    ensures
        collected == !old(progress).game_over,
        old(progress).game_over ==> *final(progress) == *old(progress) && *final(weapon) == *old(weapon),
        !old(progress).game_over && kind == PickupKind::Repair ==> *final(progress) == (GameProgress {
            health: repaired_health(old(progress).health),
            ..*old(progress)
        }),
        !old(progress).game_over && kind == PickupKind::Bomb ==> *final(progress) == (GameProgress {
            score: (old(progress).score + KILL_REWARD * enemies_on_screen) as u32,
            ..*old(progress)
        }),
        kind != PickupKind::Repair && kind != PickupKind::Bomb ==> *final(progress) == *old(progress),
        !old(progress).game_over && kind == PickupKind::Weapon ==> *final(weapon) == upgraded(*old(weapon)),
        kind != PickupKind::Weapon ==> *final(weapon) == *old(weapon),
{
    if progress.game_over {
        return false;
    }
    match kind {
        PickupKind::Invincible => {},
        PickupKind::Repair => {
            let h = progress.health + REPAIR_AMOUNT;
            progress.health = if h > MAX_HEALTH { MAX_HEALTH } else { h };
        },
        PickupKind::Weapon => {
            *weapon = weapon.upgrade();
        },
        PickupKind::Bomb => {
            let mut i: u32 = 0;
            while i < enemies_on_screen
                invariant
                    i <= enemies_on_screen,
                    progress.score == old(progress).score + KILL_REWARD * i,
                    progress.health == old(progress).health,
                    progress.game_over == old(progress).game_over,
                    old(progress).score + KILL_REWARD * enemies_on_screen <= u32::MAX,
                decreases enemies_on_screen - i,
            {
                assert(KILL_REWARD * (i + 1) <= KILL_REWARD * enemies_on_screen) by (nonlinear_arith)
                    requires
                        i + 1 <= enemies_on_screen,
                ;
                progress.award_kill();
                i = i + 1;
            }
        },
    }
    true
}

/// A repair from a playable, well-formed state keeps it well-formed and
/// playable, never lowers health, and never passes the maximum.
pub proof fn lemma_repair_keeps_wf(p: GameProgress)
    requires
        progress_wf(p),
        !p.game_over,
    ensures
        progress_wf(GameProgress { health: repaired_health(p.health), ..p }),
        repaired_health(p.health) >= p.health,
        repaired_health(p.health) <= MAX_HEALTH,
{
}

/// A repair adds exactly four health while that stays within the maximum,
/// and fills health to the maximum otherwise: it never overshoots the cap
/// and never gives less than four below it.
pub proof fn lemma_repair_adds_four(h: u32)
    requires
        h <= MAX_HEALTH,
    ensures
        h + REPAIR_AMOUNT <= MAX_HEALTH ==> repaired_health(h) - h == REPAIR_AMOUNT,
        h + REPAIR_AMOUNT > MAX_HEALTH ==> repaired_health(h) == MAX_HEALTH,
        h <= repaired_health(h) <= MAX_HEALTH,
{
}

} // verus!
