//! Global game phase and the run conditions derived from it.
use vstd::prelude::*;

verus! {

/// The game's phase: the title screen, the intro cruise with its briefing,
/// normal combat, and a conversation that pauses combat actions.
#[derive(Clone, Copy, Debug, PartialEq, Eq, Structural)]
pub enum Phase {
    Title,
    Intro,
    Combat,
    Dialogue,
}

/// True in every phase except the title screen.
pub fn playing(phase: Phase) -> (r: bool)
    ensures
        r == (phase != Phase::Title),
{
    !matches!(phase, Phase::Title)
}

/// True while the world should be in motion: a phase other than the title,
/// and the player has not failed.
pub fn live(phase: Phase, game_over: bool) -> (r: bool)
    ensures
        r == (phase != Phase::Title && !game_over),
{
    !matches!(phase, Phase::Title) && !game_over
}

} // verus!
