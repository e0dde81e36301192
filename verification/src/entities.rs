//! Plain data records of the simulation: the player, the robots, the junk
//! heaps left by destroyed robots, the per-level pickup item, and the
//! top-level game state.
use vstd::prelude::*;
use crate::in_bounds;

verus! {

/// Movement kind of a robot: a `Walker` closes one step per axis, a `Leaper`
/// makes knight-like jumps, a `Slider` slides along one of the eight compass
/// directions until stopped.
#[derive(Clone, Copy, PartialEq, Eq, Structural, Debug)]
pub enum RobotKind {
    Walker,
    Leaper,
    Slider,
}

/// A robot chasing the player. Once `is_scrap` is true the robot is an inert
/// obstacle: its position is frozen for the rest of the level.
#[derive(Clone, Copy, PartialEq, Eq, Structural, Debug)]
pub struct DumbRobot {
    pub pos_x: i32,
    pub pos_y: i32,
    pub is_scrap: bool,
    pub kind: RobotKind,
}

impl DumbRobot {
    /// The robot's position lies on the board.
    pub open spec fn wf(self) -> bool {
        in_bounds(self.pos_x as int, self.pos_y as int)
    }
}

/// A permanent (for the level) obstacle created where a robot was scrapped.
#[derive(Clone, Copy, PartialEq, Eq, Structural, Debug)]
pub struct JunkHeap {
    pub pos_x: i32,
    pub pos_y: i32,
}

impl JunkHeap {
    /// The heap's position lies on the board.
    pub open spec fn wf(self) -> bool {
        in_bounds(self.pos_x as int, self.pos_y as int)
    }
}

/// Effect of the per-level pickup item.
#[derive(Clone, Copy, PartialEq, Eq, Structural, Debug)]
pub enum ItemKind {
    /// Grants one charge of invincibility: the next fatal collision is
    /// absorbed instead of killing the player.
    Invincibility,
    /// Grants one bomb charge.
    Bomb,
}

/// The one pickup item of the current level. It starts hidden, may become
/// visible with a small per-tick chance, and can be picked up once.
#[derive(Clone, Copy, PartialEq, Eq, Structural, Debug)]
pub struct Item {
    pub pos_x: i32,
    pub pos_y: i32,
    pub level: i32,
    pub kind: ItemKind,
    pub visible: bool,
    pub picked_up: bool,
}

impl Item {
    /// The item's position lies on the board.
    pub open spec fn wf(self) -> bool {
        in_bounds(self.pos_x as int, self.pos_y as int)
    }
}

/// The player: position, score, and the charge counters for safe teleports
/// and bombs.
pub struct Player {
    pub username: String,
    pub is_alive: bool,
    pub score: i32,
    pub pos_x: i32,
    pub pos_y: i32,
    pub safe_teleports: i32,
    pub invincible: bool,
    pub bombs: i32,
}

impl Player {
    /// The player's position lies on the board and the counters are
    /// non-negative.
    pub open spec fn wf(self) -> bool {
        &&& in_bounds(self.pos_x as int, self.pos_y as int)
        &&& self.score >= 0
        &&& self.safe_teleports >= 0
        &&& self.bombs >= 0
    }
}

/// Top-level game state: the turn counter, the current level, and the two
/// one-shot command flags.
#[derive(Clone, Copy, PartialEq, Eq, Structural, Debug)]
pub struct GameState {
    pub turn: i32,
    pub level: i32,
    pub wait_for_end: bool,
    pub bomb_away: bool,
}

/// Command-line options of the game: the player's name, the path of the
/// highscore file, and whether only the highscores should be shown. Parsing
/// the command line itself belongs to the surrounding program.
pub struct Args {
    pub username: String,
    pub path: String,
    pub show_highscore: bool,
}

} // verus!
