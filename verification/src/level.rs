//! The level generator: the level-scaled robot roster, the level item, and
//! a free player spawn, each placed on a uniformly random free cell, with no
//! two entities sharing a starting cell.
use vstd::prelude::*;
use crate::{BOARD_WIDTH, BOARD_HEIGHT, in_bounds};
use crate::board::{Board, Cell};
use crate::entities::{Player, DumbRobot, JunkHeap, Item, ItemKind, GameState, RobotKind};
use crate::rng::rand_range;

verus! {

/// Number of cells of the board.
pub const CELL_TOTAL: i32 = 1440;

/// Walkers of a level: 20 below level 2, then 5 more per level, with no
/// upper cap.
pub open spec fn walker_count(level: int) -> int {
    if level < 2 { 20 } else { 20 + (level - 2) * 5 }
}

/// Leapers of a level: none below level 5, then 2 more per level.
pub open spec fn leaper_count(level: int) -> int {
    if level < 5 { 0 } else { 1 + (level - 4) * 2 }
}

/// Sliders of a level: none below level 9, then 2 more per level.
pub open spec fn slider_count(level: int) -> int {
    if level < 9 { 0 } else { 1 + (level - 10) * 2 + 1 }
}

/// All robots of a level.
pub open spec fn total_count(level: int) -> int {
    walker_count(level) + leaper_count(level) + slider_count(level)
}

/// The number of Walkers generated for a level.
pub fn no_of_dumb_robots(level: i32) -> (n: i32)
    requires
        1 <= level,
        walker_count(level as int) <= i32::MAX,
    ensures
        n == walker_count(level as int),
{
    if level < 2 {
        20
    } else {
        20 + (level - 2) * 5
    }
}

/// The number of Leapers generated for a level.
pub fn no_of_super_robots(level: i32) -> (n: i32)
    requires
        1 <= level,
        leaper_count(level as int) <= i32::MAX,
    ensures
        n == leaper_count(level as int),
{
    if level < 5 {
        0
    } else {
        1 + (level - 4) * 2
    }
}

/// The number of Sliders generated for a level.
pub fn no_of_killer_robots(level: i32) -> (n: i32)
    requires
        1 <= level,
        slider_count(level as int) <= i32::MAX,
    ensures
        n == slider_count(level as int),
{
    if level < 9 {
        0
    } else {
        1 + (level - 10) * 2 + 1
    }
}

/// No cell occurs twice in the list.
pub open spec fn distinct_cells(s: Seq<(i32, i32)>) -> bool {
    forall|a: int, b: int| 0 <= a < b < s.len() ==> #[trigger] s[a] != #[trigger] s[b]
}

/// No two robots of the roster share a cell.
pub open spec fn distinct_robots(s: Seq<DumbRobot>) -> bool {
    forall|a: int, b: int| 0 <= a < b < s.len()
        ==> !((#[trigger] s[a]).pos_x == (#[trigger] s[b]).pos_x && s[a].pos_y == s[b].pos_y)
}

/// The list of all board cells, each exactly once.
fn build_free_cells() -> (free: Vec<(i32, i32)>)
    ensures
        free@.len() == CELL_TOTAL,
        forall|k: int| 0 <= k < free@.len()
            ==> in_bounds((#[trigger] free@[k]).0 as int, free@[k].1 as int),
        distinct_cells(free@),
{
    let mut free: Vec<(i32, i32)> = Vec::new();
    let mut y: i32 = 1;
    while y <= BOARD_HEIGHT
        invariant
            1 <= y <= BOARD_HEIGHT + 1,
            free@.len() == (y - 1) * BOARD_WIDTH,
            forall|k: int| 0 <= k < free@.len()
                ==> in_bounds((#[trigger] free@[k]).0 as int, free@[k].1 as int),
            forall|k: int| 0 <= k < free@.len() ==> (#[trigger] free@[k]).1 < y,
            distinct_cells(free@),
        decreases BOARD_HEIGHT + 1 - y,
    {
        let mut x: i32 = 1;
        while x <= BOARD_WIDTH
            invariant
                1 <= x <= BOARD_WIDTH + 1,
                1 <= y <= BOARD_HEIGHT,
                free@.len() == (y - 1) * BOARD_WIDTH + (x - 1),
                forall|k: int| 0 <= k < free@.len()
                    ==> in_bounds((#[trigger] free@[k]).0 as int, free@[k].1 as int),
                forall|k: int| 0 <= k < free@.len()
                    ==> (#[trigger] free@[k]).1 < y || (free@[k].1 == y && free@[k].0 < x),
                distinct_cells(free@),
            decreases BOARD_WIDTH + 1 - x,
        {
            free.push((x, y));
            x = x + 1;
        }
        y = y + 1;
    }
    free
}

/// Remove and return a uniformly random cell of the list.
fn pick_free_cell(free: &mut Vec<(i32, i32)>) -> (c: (i32, i32))
    requires
        0 < old(free)@.len() <= CELL_TOTAL,
        forall|k: int| 0 <= k < old(free)@.len()
            ==> in_bounds((#[trigger] old(free)@[k]).0 as int, old(free)@[k].1 as int),
        distinct_cells(old(free)@),
    ensures
        old(free)@.contains(c),
        in_bounds(c.0 as int, c.1 as int),
        final(free)@.len() == old(free)@.len() - 1,
        forall|k: int| 0 <= k < final(free)@.len()
            ==> in_bounds((#[trigger] final(free)@[k]).0 as int, final(free)@[k].1 as int),
        distinct_cells(final(free)@),
        forall|k: int| 0 <= k < final(free)@.len() ==> #[trigger] final(free)@[k] != c,
        forall|k: int| 0 <= k < final(free)@.len()
            ==> old(free)@.contains(#[trigger] final(free)@[k]),
{
    let idx_r = rand_range(0, free.len() as i32);
    let idx = idx_r as usize;
    let c = free.swap_remove(idx);
    proof {
        let s0 = old(free)@;
        let s1 = free@;
        assert(s0.contains(c)) by {
            assert(s0[idx_r as int] == c);
        }
        assert forall|k: int| 0 <= k < s1.len() implies #[trigger] s1[k] != c && s0.contains(s1[k]) by {
            if k == idx_r as int {
                assert(s1[k] == s0[s0.len() - 1]);
                if s0.len() - 1 != idx_r as int {
                    assert(s0[idx_r as int] != s0[s0.len() - 1]);
                }
            } else {
                assert(s1[k] == s0[k]);
                assert(s0[k] != s0[idx_r as int]);
            }
        }
    }
    c
}

/// The board caches exactly the roster: a cell is `Robot` exactly where a
/// robot stands, and `Empty` everywhere else.
pub open spec fn board_is_roster(b: Board, robots: Seq<DumbRobot>) -> bool {
    forall|x: int, y: int| in_bounds(x, y) ==> #[trigger] b.cell(x, y)
        == (if exists|i: int| 0 <= i < robots.len()
                && (#[trigger] robots[i]).pos_x == x && robots[i].pos_y == y
            { Cell::Robot } else { Cell::Empty })
}

/// Place `n` robots of one kind, each on a uniformly random cell taken from
/// the free list, marking each placement on the board.
fn place_group(
    kind: RobotKind, n: i32, free: &mut Vec<(i32, i32)>, board: &mut Board,
    robots: &mut Vec<DumbRobot>,
)
    requires
        0 <= n,
        n <= old(free)@.len() <= CELL_TOTAL,
        old(board).wf(),
        forall|k: int| 0 <= k < old(free)@.len()
            ==> in_bounds((#[trigger] old(free)@[k]).0 as int, old(free)@[k].1 as int),
        distinct_cells(old(free)@),
        forall|k: int| 0 <= k < old(free)@.len()
            ==> old(board).cell((#[trigger] old(free)@[k]).0 as int, old(free)@[k].1 as int) == Cell::Empty,
        forall|i: int| 0 <= i < old(robots)@.len() ==> {
            let r = #[trigger] old(robots)@[i];
            r.wf() && !r.is_scrap
                && old(board).cell(r.pos_x as int, r.pos_y as int) == Cell::Robot
        },
        distinct_robots(old(robots)@),
        board_is_roster(*old(board), old(robots)@),
        old(robots)@.len() + n <= CELL_TOTAL,
    ensures
        final(board).wf(),
        final(free)@.len() == old(free)@.len() - n,
        forall|k: int| 0 <= k < final(free)@.len()
            ==> in_bounds((#[trigger] final(free)@[k]).0 as int, final(free)@[k].1 as int),
        distinct_cells(final(free)@),
        forall|k: int| 0 <= k < final(free)@.len()
            ==> final(board).cell((#[trigger] final(free)@[k]).0 as int, final(free)@[k].1 as int) == Cell::Empty,
        final(robots)@.len() == old(robots)@.len() + n,
        forall|i: int| 0 <= i < old(robots)@.len()
            ==> #[trigger] final(robots)@[i] == old(robots)@[i],
        forall|i: int| old(robots)@.len() <= i < final(robots)@.len()
            ==> (#[trigger] final(robots)@[i]).kind == kind,
        forall|i: int| 0 <= i < final(robots)@.len() ==> {
            let r = #[trigger] final(robots)@[i];
            r.wf() && !r.is_scrap
                && final(board).cell(r.pos_x as int, r.pos_y as int) == Cell::Robot
        },
        distinct_robots(final(robots)@),
        board_is_roster(*final(board), final(robots)@),
{
    let ghost b0 = *board;
    let ghost from = robots@.len() as int;
    let mut placed: i32 = 0;
    while placed < n
        invariant
            0 <= placed <= n,
            board.wf(),
            free@.len() == old(free)@.len() - placed,
            n <= old(free)@.len() <= CELL_TOTAL,
            forall|k: int| 0 <= k < free@.len()
                ==> in_bounds((#[trigger] free@[k]).0 as int, free@[k].1 as int),
            distinct_cells(free@),
            forall|k: int| 0 <= k < free@.len()
                ==> board.cell((#[trigger] free@[k]).0 as int, free@[k].1 as int) == Cell::Empty,
            robots@.len() == from + placed,
            from == old(robots)@.len(),
            forall|i: int| 0 <= i < from ==> #[trigger] robots@[i] == old(robots)@[i],
            forall|i: int| from <= i < robots@.len()
                ==> (#[trigger] robots@[i]).kind == kind,
            forall|i: int| 0 <= i < robots@.len() ==> {
                let r = #[trigger] robots@[i];
                r.wf() && !r.is_scrap
                    && board.cell(r.pos_x as int, r.pos_y as int) == Cell::Robot
            },
            distinct_robots(robots@),
            board_is_roster(*board, robots@),
        decreases n - placed,
    {
        let c = pick_free_cell(free);
        let ghost board_pre = *board;
        let ghost robots_pre = robots@;
        robots.push(DumbRobot { pos_x: c.0, pos_y: c.1, is_scrap: false, kind });
        board.set(c.0, c.1, Cell::Robot);
        placed = placed + 1;
        proof {
            assert(board_pre.cell(c.0 as int, c.1 as int) == Cell::Empty);
            assert forall|x: int, y: int| in_bounds(x, y) implies #[trigger] board.cell(x, y)
                == (if exists|i: int| 0 <= i < robots@.len()
                        && (#[trigger] robots@[i]).pos_x == x && robots@[i].pos_y == y
                    { Cell::Robot } else { Cell::Empty }) by {
                if x == c.0 as int && y == c.1 as int {
                    assert(robots@[robots@.len() - 1].pos_x == x && robots@[robots@.len() - 1].pos_y == y);
                } else {
                    assert(board.cell(x, y) == board_pre.cell(x, y));
                    if exists|i: int| 0 <= i < robots@.len()
                        && (#[trigger] robots@[i]).pos_x == x && robots@[i].pos_y == y {
                        let i = choose|i: int| 0 <= i < robots@.len()
                            && (#[trigger] robots@[i]).pos_x == x && robots@[i].pos_y == y;
                        assert(i < robots@.len() - 1);
                        assert(robots_pre[i].pos_x == x && robots_pre[i].pos_y == y);
                    } else {
                        assert forall|i: int| 0 <= i < robots_pre.len()
                            implies !((#[trigger] robots_pre[i]).pos_x == x && robots_pre[i].pos_y == y) by {
                            assert(robots@[i] == robots_pre[i]);
                        }
                    }
                }
            }
        }
    }
}

/// Populate a fresh level for the state's current level number: the board is
/// cleared and the roster regenerated by the three scaling formulas, with
/// Walkers first, then Leapers, then Sliders, every entity on its own random
/// cell; the junk heaps are cleared; the item is reset to a random kind and
/// hidden; the player gets one more safe teleport, loses invincibility, and
/// spawns on a cell free of robots and of the item.
pub fn generate_level(
    gamestate: &GameState, game_board_data: &mut Board, dumb_robots: &mut Vec<DumbRobot>,
    junk_heaps: &mut Vec<JunkHeap>, player: &mut Player, item: &mut Item,
)
    requires
        1 <= gamestate.level,
        total_count(gamestate.level as int) + 2 <= CELL_TOTAL,
        old(game_board_data).wf(),
        0 <= old(player).safe_teleports < i32::MAX,
        0 <= old(player).score,
        0 <= old(player).bombs,
    ensures
        final(game_board_data).wf(),
        final(junk_heaps)@.len() == 0,
        // The roster follows the three scaling formulas, Walkers first.
        final(dumb_robots)@.len() == total_count(gamestate.level as int),
        forall|i: int| 0 <= i < walker_count(gamestate.level as int)
            ==> (#[trigger] final(dumb_robots)@[i]).kind == RobotKind::Walker,
        forall|i: int|
            walker_count(gamestate.level as int) <= i
                < walker_count(gamestate.level as int) + leaper_count(gamestate.level as int)
            ==> (#[trigger] final(dumb_robots)@[i]).kind == RobotKind::Leaper,
        forall|i: int|
            walker_count(gamestate.level as int) + leaper_count(gamestate.level as int) <= i
                < total_count(gamestate.level as int)
            ==> (#[trigger] final(dumb_robots)@[i]).kind == RobotKind::Slider,
        // Every entity is on the board and no two share a cell.
        forall|i: int| 0 <= i < final(dumb_robots)@.len() ==> {
            let r = #[trigger] final(dumb_robots)@[i];
            r.wf() && !r.is_scrap
        },
        distinct_robots(final(dumb_robots)@),
        final(item).wf(),
        final(player).wf(),
        forall|i: int| 0 <= i < final(dumb_robots)@.len()
            ==> !((#[trigger] final(dumb_robots)@[i]).pos_x == final(item).pos_x
                && final(dumb_robots)@[i].pos_y == final(item).pos_y),
        forall|i: int| 0 <= i < final(dumb_robots)@.len()
            ==> !((#[trigger] final(dumb_robots)@[i]).pos_x == final(player).pos_x
                && final(dumb_robots)@[i].pos_y == final(player).pos_y),
        !(final(player).pos_x == final(item).pos_x && final(player).pos_y == final(item).pos_y),
        // The board caches exactly the robot placements.
        board_is_roster(*final(game_board_data), final(dumb_robots)@),
        // The item is fresh: hidden, unclaimed, stamped with the level.
        *final(item) == (Item {
            pos_x: final(item).pos_x,
            pos_y: final(item).pos_y,
            level: gamestate.level,
            kind: final(item).kind,
            visible: false,
            picked_up: false,
        }),
        // The player: one more safe teleport, invincibility gone, the rest
        // untouched.
        *final(player) == (Player {
            pos_x: final(player).pos_x,
            pos_y: final(player).pos_y,
            safe_teleports: (old(player).safe_teleports + 1) as i32,
            invincible: false,
            ..*old(player)
        }),
{
    game_board_data.clear();

    player.safe_teleports = player.safe_teleports + 1;
    player.invincible = false;

    dumb_robots.clear();
    junk_heaps.clear();

    proof {
        assert(board_is_roster(*game_board_data, dumb_robots@));
    }

    let mut free = build_free_cells();

    let nw = no_of_dumb_robots(gamestate.level);
    let nl = no_of_super_robots(gamestate.level);
    let ns = no_of_killer_robots(gamestate.level);

    place_group(RobotKind::Walker, nw, &mut free, game_board_data, dumb_robots);
    place_group(RobotKind::Leaper, nl, &mut free, game_board_data, dumb_robots);
    place_group(RobotKind::Slider, ns, &mut free, game_board_data, dumb_robots);

    let ghost free_after_groups = free@;
    let ci = pick_free_cell(&mut free);
    item.pos_x = ci.0;
    item.pos_y = ci.1;
    item.level = gamestate.level;
    item.kind = if rand_range(1, 3) == 1 { ItemKind::Invincibility } else { ItemKind::Bomb };
    item.visible = false;
    item.picked_up = false;
    proof {
        let j = choose|j: int| 0 <= j < free_after_groups.len() && free_after_groups[j] == ci;
        assert(game_board_data.cell(ci.0 as int, ci.1 as int) == Cell::Empty);
    }

    let cp = pick_free_cell(&mut free);
    player.pos_x = cp.0;
    player.pos_y = cp.1;
    proof {
        let j = choose|j: int| 0 <= j < free_after_groups.len() && free_after_groups[j] == cp;
        assert(game_board_data.cell(cp.0 as int, cp.1 as int) == Cell::Empty);
    }
}

} // verus!
