//! Player commands between ticks: a one-cell move, the two teleports, arming
//! a bomb, arming wait-for-end, resting, and quitting. A command reports
//! whether it was a legal move; only a legal move costs a tick.
use vstd::prelude::*;
use crate::{BOARD_WIDTH, BOARD_HEIGHT, in_bounds};
use crate::board::{Board, Cell};
use crate::entities::{Player, DumbRobot, GameState};
use crate::movement::abs_i;
use crate::rng::rand_range;

verus! {

/// Some robot is still live (not scrap).
pub open spec fn any_live(robots: Seq<DumbRobot>) -> bool {
    exists|i: int| 0 <= i < robots.len() && !(#[trigger] robots[i]).is_scrap
}

/// Number of live robots among the first `n`.
pub open spec fn live_count(robots: Seq<DumbRobot>, n: int) -> int
    decreases n,
{
    if n <= 0 {
        0
    } else {
        live_count(robots, n - 1) + (if robots[n - 1].is_scrap { 0int } else { 1int })
    }
}

/// Whether at least one robot of the roster is still live.
pub fn any_robots_left(robots: &Vec<DumbRobot>) -> (b: bool)
    ensures
        b == any_live(robots@),
{
    let mut i: usize = 0;
    while i < robots.len()
        invariant
            i <= robots@.len(),
            forall|j: int| 0 <= j < i ==> (#[trigger] robots@[j]).is_scrap,
        decreases robots@.len() - i,
    {
        if !robots[i].is_scrap {
            return true;
        }
        i = i + 1;
    }
    false
}

/// The number of live robots of the roster.
pub fn alive_robots(robots: &Vec<DumbRobot>) -> (n: i32)
    requires
        robots@.len() <= i32::MAX,
    ensures
        n == live_count(robots@, robots@.len() as int),
{
    let mut n: i32 = 0;
    let mut i: usize = 0;
    while i < robots.len()
        invariant
            i <= robots@.len(),
            robots@.len() <= i32::MAX,
            n == live_count(robots@, i as int),
            n <= i,
        decreases robots@.len() - i,
    {
        if !robots[i].is_scrap {
            n = n + 1;
        }
        i = i + 1;
    }
    n
}

/// `v` clamped into `[lo, hi]`.
pub open spec fn clamp_i(v: int, lo: int, hi: int) -> int {
    if v < lo { lo } else if v > hi { hi } else { v }
}

/// Move the player by one cell. The target is the player's position shifted
/// by (d_pos_x, d_pos_y) and clamped onto the board; the move is legal, and
/// taken, exactly when the target cell is `Empty`, and otherwise the player
/// does not move.
pub fn move_player(player: &mut Player, d_pos_x: i32, d_pos_y: i32, game_board_data: &Board) -> (legal: bool)
    requires
        old(player).wf(),
        game_board_data.wf(),
        -1 <= d_pos_x <= 1,
        -1 <= d_pos_y <= 1,
    ensures
        final(player).wf(),
        *final(player) == (Player {
            pos_x: final(player).pos_x,
            pos_y: final(player).pos_y,
            ..*old(player)
        }),
        ({
            let cx = clamp_i(old(player).pos_x + d_pos_x, 1, BOARD_WIDTH as int);
            let cy = clamp_i(old(player).pos_y + d_pos_y, 1, BOARD_HEIGHT as int);
            if game_board_data.cell(cx, cy) == Cell::Empty {
                &&& legal
                &&& final(player).pos_x == cx
                &&& final(player).pos_y == cy
            } else {
                &&& !legal
                &&& final(player).pos_x == old(player).pos_x
                &&& final(player).pos_y == old(player).pos_y
            }
        }),
{
    let mut nx = player.pos_x + d_pos_x;
    let mut ny = player.pos_y + d_pos_y;
    if nx < 1 {
        nx = 1;
    }
    if nx > BOARD_WIDTH {
        nx = BOARD_WIDTH;
    }
    if ny < 1 {
        ny = 1;
    }
    if ny > BOARD_HEIGHT {
        ny = BOARD_HEIGHT;
    }
    if matches!(game_board_data.get(nx, ny), Cell::Empty) {
        player.pos_x = nx;
        player.pos_y = ny;
        true
    } else {
        false
    }
}

/// (x, y) is at Chebyshev distance at least 2 from every live robot.
pub open spec fn safe_spot(robots: Seq<DumbRobot>, x: int, y: int) -> bool {
    forall|i: int| 0 <= i < robots.len() && !(#[trigger] robots[i]).is_scrap
        ==> abs_i(robots[i].pos_x - x) >= 2 || abs_i(robots[i].pos_y - y) >= 2
}

/// What a teleport did to the player: the landing cell is on the board, the
/// rest of the player is untouched, and one safe-teleport charge is consumed
/// exactly when a safe teleport was asked for and a charge was available. A
/// consumed charge lands the player at a safe spot whenever one exists; an
/// unsafe teleport may land anywhere, junk and robots included.
pub open spec fn teleport_post(try_safe: bool, robots: Seq<DumbRobot>, p0: Player, p1: Player) -> bool {
    &&& in_bounds(p1.pos_x as int, p1.pos_y as int)
    &&& p1 == (Player {
        pos_x: p1.pos_x,
        pos_y: p1.pos_y,
        safe_teleports: p1.safe_teleports,
        ..p0
    })
    &&& p1.safe_teleports
        == p0.safe_teleports - (if try_safe && p0.safe_teleports > 0 { 1int } else { 0int })
    &&& (try_safe && p0.safe_teleports > 0
        && (exists|x: int, y: int| in_bounds(x, y) && safe_spot(robots, x, y)))
        ==> safe_spot(robots, p1.pos_x as int, p1.pos_y as int)
}

/// Whether (x, y) keeps Chebyshev distance at least 2 from every live robot.
fn is_safe_spot(robots: &Vec<DumbRobot>, x: i32, y: i32) -> (b: bool)
    requires
        forall|i: int| 0 <= i < robots@.len() ==> (#[trigger] robots@[i]).wf(),
        in_bounds(x as int, y as int),
    ensures
        b == safe_spot(robots@, x as int, y as int),
{
    let mut i: usize = 0;
    while i < robots.len()
        invariant
            i <= robots@.len(),
            forall|j: int| 0 <= j < robots@.len() ==> (#[trigger] robots@[j]).wf(),
            in_bounds(x as int, y as int),
            forall|j: int| 0 <= j < i && !(#[trigger] robots@[j]).is_scrap
                ==> abs_i(robots@[j].pos_x - x) >= 2 || abs_i(robots@[j].pos_y - y) >= 2,
        decreases robots@.len() - i,
    {
        let r = robots[i];
        if !r.is_scrap {
            let dx = if r.pos_x >= x { r.pos_x - x } else { x - r.pos_x };
            let dy = if r.pos_y >= y { r.pos_y - y } else { y - r.pos_y };
            if dx < 2 && dy < 2 {
                return false;
            }
        }
        i = i + 1;
    }
    true
}

/// Teleport the player to a random board cell. With `try_safe` and a
/// positive charge count, one charge is consumed and the landing cell keeps
/// Chebyshev distance at least 2 from every live robot, as long as some such
/// cell exists; otherwise (charge exhausted, or no safe cell left) the
/// landing cell is unconstrained — it may hold junk or a robot, which the
/// next tick resolves.
pub fn teleport_player(try_safe: bool, player: &mut Player, dumb_robots: &Vec<DumbRobot>)
    requires
        old(player).wf(),
        forall|i: int| 0 <= i < dumb_robots@.len() ==> (#[trigger] dumb_robots@[i]).wf(),
    ensures
        final(player).wf(),
        teleport_post(try_safe, dumb_robots@, *old(player), *final(player)),
{
    let mut safe_teleport = false;
    if player.safe_teleports > 0 && try_safe {
        safe_teleport = true;
        player.safe_teleports = player.safe_teleports - 1;
    }

    if safe_teleport {
        let mut spots: Vec<(i32, i32)> = Vec::new();
        let mut y: i32 = 1;
        while y <= BOARD_HEIGHT
            invariant
                1 <= y <= BOARD_HEIGHT + 1,
                forall|i: int| 0 <= i < dumb_robots@.len() ==> (#[trigger] dumb_robots@[i]).wf(),
                forall|k: int| 0 <= k < spots@.len() ==> {
                    let s = #[trigger] spots@[k];
                    in_bounds(s.0 as int, s.1 as int) && safe_spot(dumb_robots@, s.0 as int, s.1 as int)
                },
                spots@.len() == 0 ==> forall|xx: int, yy: int|
                    in_bounds(xx, yy) && yy < y ==> !safe_spot(dumb_robots@, xx, yy),
                spots@.len() <= (y - 1) * BOARD_WIDTH,
            decreases BOARD_HEIGHT + 1 - y,
        {
            let mut x: i32 = 1;
            while x <= BOARD_WIDTH
                invariant
                    1 <= x <= BOARD_WIDTH + 1,
                    1 <= y <= BOARD_HEIGHT,
                    forall|i: int| 0 <= i < dumb_robots@.len() ==> (#[trigger] dumb_robots@[i]).wf(),
                    forall|k: int| 0 <= k < spots@.len() ==> {
                        let s = #[trigger] spots@[k];
                        in_bounds(s.0 as int, s.1 as int) && safe_spot(dumb_robots@, s.0 as int, s.1 as int)
                    },
                    spots@.len() == 0 ==> forall|xx: int, yy: int|
                        in_bounds(xx, yy) && (yy < y || (yy == y && xx < x))
                            ==> !safe_spot(dumb_robots@, xx, yy),
                    spots@.len() <= (y - 1) * BOARD_WIDTH + (x - 1),
                decreases BOARD_WIDTH + 1 - x,
            {
                if is_safe_spot(dumb_robots, x, y) {
                    spots.push((x, y));
                }
                x = x + 1;
            }
            y = y + 1;
        }
        if spots.len() > 0 {
            let idx = rand_range(0, spots.len() as i32);
            let c = spots[idx as usize];
            player.pos_x = c.0;
            player.pos_y = c.1;
            return;
        }
        proof {
            assert(forall|xx: int, yy: int| in_bounds(xx, yy) ==> !safe_spot(dumb_robots@, xx, yy));
        }
    }
    let nx = rand_range(1, BOARD_WIDTH + 1);
    let ny = rand_range(1, BOARD_HEIGHT + 1);
    player.pos_x = nx;
    player.pos_y = ny;
}

/// One of the eight one-cell movement directions.
#[derive(Clone, Copy, PartialEq, Eq, Structural, Debug)]
pub enum Dir {
    UpLeft,
    Up,
    UpRight,
    Left,
    Right,
    DownLeft,
    Down,
    DownRight,
}

impl Dir {
    /// The (dx, dy) of the direction; y grows downward.
    pub open spec fn delta_spec(self) -> (int, int) {
        match self {
            Dir::UpLeft => (-1int, -1int),
            Dir::Up => (0int, -1int),
            Dir::UpRight => (1int, -1int),
            Dir::Left => (-1int, 0int),
            Dir::Right => (1int, 0int),
            Dir::DownLeft => (-1int, 1int),
            Dir::Down => (0int, 1int),
            Dir::DownRight => (1int, 1int),
        }
    }

    /// The (dx, dy) of the direction as executable values.
    pub fn delta(self) -> (d: (i32, i32))
        ensures
            d.0 as int == self.delta_spec().0,
            d.1 as int == self.delta_spec().1,
    {
        match self {
            Dir::UpLeft => (-1, -1),
            Dir::Up => (0, -1),
            Dir::UpRight => (1, -1),
            Dir::Left => (-1, 0),
            Dir::Right => (1, 0),
            Dir::DownLeft => (-1, 1),
            Dir::Down => (0, 1),
            Dir::DownRight => (1, 1),
        }
    }
}

/// A player command between ticks.
#[derive(Clone, Copy, PartialEq, Eq, Structural, Debug)]
pub enum Command {
    /// Move one cell in a direction.
    Step(Dir),
    /// Teleport, spending a safe-teleport charge if one is left.
    SafeTeleport,
    /// Teleport without asking for safety.
    Teleport,
    /// Arm a bomb for the next tick, consuming a bomb charge; with no charge
    /// left this degrades silently to a rest.
    Bomb,
    /// Let the simulation free-run until the level clears or the player dies.
    WaitForEnd,
    /// Rest for one turn.
    Rest,
    /// Give up: the player stops living and the game ends.
    Quit,
}

/// Apply one player command, advancing the turn counter. The returned flag
/// says whether the command was a legal move, that is, whether it should
/// cost a tick: only a `Step` onto an occupied cell, or a `Quit`, is not.
pub fn apply_player_command(
    command: Command, player: &mut Player, dumb_robots: &Vec<DumbRobot>,
    game_board_data: &Board, game_state: &mut GameState,
) -> (legal: bool)
    requires
        old(player).wf(),
        forall|i: int| 0 <= i < dumb_robots@.len() ==> (#[trigger] dumb_robots@[i]).wf(),
        game_board_data.wf(),
        old(game_state).turn < i32::MAX,
    ensures
        final(player).wf(),
        final(game_state).turn == old(game_state).turn + 1,
        final(game_state).level == old(game_state).level,
        match command {
            Command::Step(d) => {
                let cx = clamp_i(old(player).pos_x + d.delta_spec().0, 1, BOARD_WIDTH as int);
                let cy = clamp_i(old(player).pos_y + d.delta_spec().1, 1, BOARD_HEIGHT as int);
                &&& *final(game_state) == (GameState { turn: final(game_state).turn, ..*old(game_state) })
                &&& if game_board_data.cell(cx, cy) == Cell::Empty {
                    &&& legal
                    &&& *final(player) == (Player { pos_x: cx as i32, pos_y: cy as i32, ..*old(player) })
                } else {
                    &&& !legal
                    &&& *final(player) == *old(player)
                }
            },
            Command::SafeTeleport => {
                &&& legal
                &&& *final(game_state) == (GameState { turn: final(game_state).turn, ..*old(game_state) })
                &&& teleport_post(true, dumb_robots@, *old(player), *final(player))
            },
            Command::Teleport => {
                &&& legal
                &&& *final(game_state) == (GameState { turn: final(game_state).turn, ..*old(game_state) })
                &&& teleport_post(false, dumb_robots@, *old(player), *final(player))
            },
            Command::Bomb => {
                &&& legal
                &&& if old(player).bombs > 0 {
                    &&& *final(player) == (Player { bombs: (old(player).bombs - 1) as i32, ..*old(player) })
                    &&& *final(game_state) == (GameState {
                        turn: final(game_state).turn, bomb_away: true, ..*old(game_state) })
                } else {
                    &&& *final(player) == *old(player)
                    &&& *final(game_state) == (GameState { turn: final(game_state).turn, ..*old(game_state) })
                }
            },
            Command::WaitForEnd => {
                &&& legal
                &&& *final(player) == *old(player)
                &&& *final(game_state) == (GameState {
                    turn: final(game_state).turn, wait_for_end: true, ..*old(game_state) })
            },
            Command::Rest => {
                &&& legal
                &&& *final(player) == *old(player)
                &&& *final(game_state) == (GameState { turn: final(game_state).turn, ..*old(game_state) })
            },
            Command::Quit => {
                &&& !legal
                &&& *final(player) == (Player { is_alive: false, ..*old(player) })
                &&& *final(game_state) == (GameState { turn: final(game_state).turn, ..*old(game_state) })
            },
        },
{
    let legal: bool;
    match command {
        Command::Step(d) => {
            let (dx, dy) = d.delta();
            legal = move_player(player, dx, dy, game_board_data);
        },
        Command::SafeTeleport => {
            teleport_player(true, player, dumb_robots);
            legal = true;
        },
        Command::Teleport => {
            teleport_player(false, player, dumb_robots);
            legal = true;
        },
        Command::Bomb => {
            if player.bombs > 0 {
                player.bombs = player.bombs - 1;
                game_state.bomb_away = true;
            }
            legal = true;
        },
        Command::WaitForEnd => {
            game_state.wait_for_end = true;
            legal = true;
        },
        Command::Rest => {
            legal = true;
        },
        Command::Quit => {
            player.is_alive = false;
            legal = false;
        },
    }
    game_state.turn = game_state.turn + 1;
    legal
}

} // verus!
