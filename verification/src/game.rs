//! The win/loss state machine of the game loop: after each tick the session
//! either goes on, clears the level, or ends with the player's death. The
//! surrounding program performs the chosen action (another tick, a level
//! regeneration, the retry prompt); the decision itself is made here.
use vstd::prelude::*;
use crate::actions::any_live;
use crate::entities::{DumbRobot, GameState, Player};

verus! {

/// What the game loop does next.
#[derive(Clone, Copy, PartialEq, Eq, Structural, Debug)]
pub enum LoopStep {
    /// Robots remain and the player lives: play another turn.
    ContinueLevel,
    /// No live robot remains: advance to the next level.
    LevelCleared,
    /// The player is dead: the session is over.
    PlayerDead,
}

/// Decide the game loop's next step: a dead player ends the session before
/// anything else; otherwise the level is cleared exactly when no live robot
/// remains.
pub fn next_loop_step(player: &Player, robots: &Vec<DumbRobot>) -> (s: LoopStep)
    ensures
        s == (if !player.is_alive {
            LoopStep::PlayerDead
        } else if any_live(robots@) {
            LoopStep::ContinueLevel
        } else {
            LoopStep::LevelCleared
        }),
{
    if !player.is_alive {
        LoopStep::PlayerDead
    } else if crate::actions::any_robots_left(robots) {
        LoopStep::ContinueLevel
    } else {
        LoopStep::LevelCleared
    }
}

/// Move the state to the next level: the level number grows by one and a
/// pending wait-for-end is cleared; nothing else changes.
pub fn advance_level(game_state: &mut GameState)
    requires
        old(game_state).level < i32::MAX,
    ensures
        *final(game_state) == (GameState {
            level: (old(game_state).level + 1) as i32,
            wait_for_end: false,
            ..*old(game_state)
        }),
{
    game_state.wait_for_end = false;
    game_state.level = game_state.level + 1;
}

} // verus!
