//! Score, health and game over.
use vstd::prelude::*;

verus! {

/// Total health: three end/cap segments plus ten repeated segments.
pub const MAX_HEALTH: u32 = 13;

/// Money awarded for destroying an enemy craft.
pub const KILL_REWARD: u32 = 100;

/// The run's score, remaining health and whether the player has failed.
#[derive(Clone, Copy, Debug, PartialEq, Eq, Structural)]
pub struct GameProgress {
    pub score: u32,
    pub health: u32,
    pub game_over: bool,
}

/// Health never exceeds the maximum, and the game is over exactly when health
/// has run out. Every state a run can reach has this shape.
pub open spec fn progress_wf(p: GameProgress) -> bool {
    &&& p.health <= MAX_HEALTH
    &&& (p.game_over <==> p.health == 0)
}

/// A fresh run: no score, full health, still playing.
pub open spec fn fresh_progress() -> GameProgress {
    GameProgress { score: 0, health: MAX_HEALTH, game_over: false }
}

/// The state after taking one point of damage: nothing changes once the game
/// is over; otherwise health drops by one and the game ends at zero.
pub open spec fn damaged(p: GameProgress) -> GameProgress {
    if p.game_over {
        p
    } else {
        let health = if p.health == 0 { 0 } else { (p.health - 1) as u32 };
        GameProgress { score: p.score, health, game_over: health == 0 }
    }
}

/// The state after `n` successive points of damage.
pub open spec fn damaged_n(p: GameProgress, n: nat) -> GameProgress
    decreases n,
{
    if n == 0 {
        p
    } else {
        damaged(damaged_n(p, (n - 1) as nat))
    }
}

impl Default for GameProgress {
    fn default() -> (r: Self)
        ensures
            r == fresh_progress(),
    {
        GameProgress { score: 0, health: MAX_HEALTH, game_over: false }
    }
}

impl GameProgress {
    /// Take one point of damage; triggers game over at zero health.
    pub fn damage(&mut self)
        ensures
            *final(self) == damaged(*old(self)),
    {
        if self.game_over {
            return;
        }
        if self.health > 0 {
            self.health = self.health - 1;
        }
        if self.health == 0 {
            self.game_over = true;
        }
    }

    /// Credit one destroyed enemy.
    pub fn award_kill(&mut self)
        requires
            old(self).score + KILL_REWARD <= u32::MAX,
        ensures
            *final(self) == (GameProgress { score: (old(self).score + KILL_REWARD) as u32, ..*old(self) }),
    {
        self.score = self.score + KILL_REWARD;
    }

    /// At every level start: top up health and clear game over (the score
    /// carries over).
    pub fn refill(&mut self)
        ensures
            *final(self) == (GameProgress { health: MAX_HEALTH, game_over: false, ..*old(self) }),
    {
        self.health = MAX_HEALTH;
        self.game_over = false;
    }
}

/// After a game over, the confirm key returns to the title screen.
pub fn return_to_title(game_over: bool, confirm_pressed: bool) -> (r: bool)
    ensures
        r == (game_over && confirm_pressed),
{
    game_over && confirm_pressed
}

/// Plays the game-over jingle once per game over: remembers whether it has
/// played, and forgets as soon as the game is no longer over.
#[derive(Clone, Copy, Debug, PartialEq, Eq, Structural)]
pub struct JingleLatch {
    pub played: bool,
}

impl JingleLatch {
    /// One frame: returns whether to play the jingle now.
    pub fn update(&mut self, game_over: bool) -> (play: bool)
        ensures
            play == (game_over && !old(self).played),
            final(self).played == game_over,
    {
        if game_over {
            if !self.played {
                self.played = true;
                return true;
            }
            false
        } else {
            self.played = false;
            false
        }
    }
}

/// Damage keeps a well-formed state well-formed, never raises health, never
/// touches the score, and once the game is over it changes nothing.
pub proof fn lemma_damage_preserves_wf(p: GameProgress)
    requires
        progress_wf(p),
    ensures
        progress_wf(damaged(p)),
        damaged(p).health <= p.health,
        damaged(p).score == p.score,
        p.game_over ==> damaged(p) == p,
        !p.game_over ==> damaged(p).health == p.health - 1,
{
}

/// From full health the ship survives `MAX_HEALTH - 1` hits and the game ends
/// on exactly the `MAX_HEALTH`-th: after `n` hits health is `MAX_HEALTH - n`
/// (never below zero) and the game is over exactly when `n >= MAX_HEALTH`.
pub proof fn lemma_hits_until_game_over(n: nat)
    ensures
        damaged_n(fresh_progress(), n).health == (if n >= MAX_HEALTH { 0 } else { MAX_HEALTH - n }),
        damaged_n(fresh_progress(), n).game_over == (n >= MAX_HEALTH),
        damaged_n(fresh_progress(), n).score == 0,
    decreases n,
{
    if n > 0 {
        lemma_hits_until_game_over((n - 1) as nat);
    }
}

/// A refill always yields a well-formed, playable state with full health.
pub proof fn lemma_refill_restores(p: GameProgress)
    ensures
        progress_wf(GameProgress { health: MAX_HEALTH, game_over: false, ..p }),
{
}

} // verus!
