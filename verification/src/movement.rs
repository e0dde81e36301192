//! Movement strategies: how each robot kind picks its next cell. The metric
//! used throughout for "closest" is the Manhattan distance, which is
//! integer-exact and deterministic on a grid.
use vstd::prelude::*;
use crate::{BOARD_WIDTH, BOARD_HEIGHT, in_bounds};
use crate::entities::{Player, DumbRobot};

verus! {

/// Absolute value.
pub open spec fn abs_i(d: int) -> int {
    if d < 0 { -d } else { d }
}

/// Sign of `d`: -1, 0 or 1.
pub open spec fn sign_i(d: int) -> int {
    if d < 0 { -1 } else if d > 0 { 1 } else { 0 }
}

/// Manhattan distance between (x1, y1) and (x2, y2).
pub open spec fn dist_m(x1: int, y1: int, x2: int, y2: int) -> int {
    abs_i(x1 - x2) + abs_i(y1 - y2)
}

/// One coordinate step from `a` toward `b`.
pub open spec fn toward(a: int, b: int) -> int {
    a + sign_i(b - a)
}

/// Distance between the player and a robot. Despite the name, the metric is
/// the Manhattan distance `|dx| + |dy|`, not the Euclidean one: it is
/// integer-exact and deterministic, which the tie-breaking rules rely on.
pub fn eucledian_distance(player: &Player, robot: &DumbRobot) -> (d: i32)
    requires
        player.wf(),
        robot.wf(),
    ensures
        d == dist_m(player.pos_x as int, player.pos_y as int, robot.pos_x as int, robot.pos_y as int),
{
    let dx = if player.pos_x >= robot.pos_x { player.pos_x - robot.pos_x } else { robot.pos_x - player.pos_x };
    let dy = if player.pos_y >= robot.pos_y { player.pos_y - robot.pos_y } else { robot.pos_y - player.pos_y };
    dx + dy
}

/// The fixed knight-move candidate set of the Leaper, in iteration order.
pub open spec fn leaper_offsets() -> Seq<(i32, i32)> {
    seq![(2i32, 1i32), (2i32, -1i32), (-2i32, 1i32), (-2i32, -1i32),
         (1i32, 2i32), (1i32, -2i32), (-1i32, 2i32), (-1i32, -2i32)]
}

/// The eight compass directions of the Slider, in iteration order.
pub open spec fn slider_dirs() -> Seq<(i32, i32)> {
    seq![(0i32, 1i32), (0i32, -1i32), (1i32, 0i32), (-1i32, 0i32),
         (1i32, 1i32), (-1i32, 1i32), (1i32, -1i32), (-1i32, -1i32)]
}

/// The offset, applied at (rx, ry), lands on the board.
pub open spec fn off_ok(rx: int, ry: int, m: (i32, i32)) -> bool {
    in_bounds(rx + m.0, ry + m.1)
}

/// Manhattan distance from the landing cell of the offset to (px, py).
pub open spec fn off_dist(rx: int, ry: int, px: int, py: int, m: (i32, i32)) -> int {
    dist_m(rx + m.0, ry + m.1, px, py)
}

/// `m` is the offset the first-tie minimization picks from `offs` at
/// (rx, ry) chasing (px, py): the in-bounds offset of least landing
/// distance, the earliest in iteration order on a tie, and the zero offset
/// when none is in bounds.
pub open spec fn is_choice_first(offs: Seq<(i32, i32)>, rx: int, ry: int, px: int, py: int, m: (i32, i32)) -> bool {
    if exists|i: int| 0 <= i < offs.len() && off_ok(rx, ry, #[trigger] offs[i]) {
        exists|i: int|
            {
                &&& 0 <= i < offs.len()
                &&& m == offs[i]
                &&& off_ok(rx, ry, #[trigger] offs[i])
                &&& forall|j: int|
                    0 <= j < offs.len() && off_ok(rx, ry, #[trigger] offs[j])
                        ==> off_dist(rx, ry, px, py, offs[i]) <= off_dist(rx, ry, px, py, offs[j])
                &&& forall|j: int|
                    0 <= j < i && off_ok(rx, ry, #[trigger] offs[j])
                        ==> off_dist(rx, ry, px, py, offs[j]) > off_dist(rx, ry, px, py, offs[i])
            }
    } else {
        m == (0i32, 0i32)
    }
}

/// As `is_choice_first`, but the latest offset in iteration order on a tie.
pub open spec fn is_choice_last(offs: Seq<(i32, i32)>, rx: int, ry: int, px: int, py: int, m: (i32, i32)) -> bool {
    if exists|i: int| 0 <= i < offs.len() && off_ok(rx, ry, #[trigger] offs[i]) {
        exists|i: int|
            {
                &&& 0 <= i < offs.len()
                &&& m == offs[i]
                &&& off_ok(rx, ry, #[trigger] offs[i])
                &&& forall|j: int|
                    0 <= j < offs.len() && off_ok(rx, ry, #[trigger] offs[j])
                        ==> off_dist(rx, ry, px, py, offs[i]) <= off_dist(rx, ry, px, py, offs[j])
                &&& forall|j: int|
                    i < j < offs.len() && off_ok(rx, ry, #[trigger] offs[j])
                        ==> off_dist(rx, ry, px, py, offs[j]) > off_dist(rx, ry, px, py, offs[i])
            }
    } else {
        m == (0i32, 0i32)
    }
}

/// The Leaper's choice: among the knight moves that stay on the board, the
/// one whose landing cell minimizes the Manhattan distance to the player,
/// ties broken by the first such offset in iteration order. If no candidate
/// stays on the board the Leaper stays put, returning the zero offset.
pub fn leaper_choose(rx: i32, ry: i32, px: i32, py: i32) -> (m: (i32, i32))
    requires
        in_bounds(rx as int, ry as int),
        in_bounds(px as int, py as int),
    ensures
        is_choice_first(leaper_offsets(), rx as int, ry as int, px as int, py as int, m),
{
    let moves: Vec<(i32, i32)> = vec![
        (2, 1), (2, -1), (-2, 1), (-2, -1),
        (1, 2), (1, -2), (-1, 2), (-1, -2),
    ];
    proof {
        assert(moves@ =~= leaper_offsets());
    }
    choose_min_first(rx, ry, px, py, &moves)
}

/// The Slider's choice of direction: among the eight compass directions whose
/// first step stays on the board, the one minimizing the Manhattan distance
/// of that step to the player, ties broken by the last such direction in
/// iteration order. If no direction's first step stays on the board the
/// Slider stays put, returning the zero direction.
pub fn slider_choose(rx: i32, ry: i32, px: i32, py: i32) -> (m: (i32, i32))
    requires
        in_bounds(rx as int, ry as int),
        in_bounds(px as int, py as int),
    ensures
        is_choice_last(slider_dirs(), rx as int, ry as int, px as int, py as int, m),
{
    let moves: Vec<(i32, i32)> = vec![
        (0, 1), (0, -1), (1, 0), (-1, 0),
        (1, 1), (-1, 1), (1, -1), (-1, -1),
    ];
    proof {
        assert(moves@ =~= slider_dirs());
    }
    choose_min_last(rx, ry, px, py, &moves)
}

/// Landing distance of an in-bounds candidate, as executable code.
fn landing_dist(rx: i32, ry: i32, px: i32, py: i32, m: (i32, i32)) -> (d: i32)
    requires
        in_bounds(rx as int, ry as int),
        in_bounds(px as int, py as int),
        -2 <= m.0 <= 2,
        -2 <= m.1 <= 2,
        off_ok(rx as int, ry as int, m),
    ensures
        d == off_dist(rx as int, ry as int, px as int, py as int, m),
{
    let nx = rx + m.0;
    let ny = ry + m.1;
    let dx = if px >= nx { px - nx } else { nx - px };
    let dy = if py >= ny { py - ny } else { ny - py };
    dx + dy
}

/// The in-bounds candidate with the least landing distance, first one on a
/// tie; the zero offset when no candidate is in bounds.
fn choose_min_first(rx: i32, ry: i32, px: i32, py: i32, moves: &Vec<(i32, i32)>) -> (m: (i32, i32))
    requires
        in_bounds(rx as int, ry as int),
        in_bounds(px as int, py as int),
        forall|i: int| 0 <= i < moves@.len()
            ==> -2 <= (#[trigger] moves@[i]).0 <= 2 && -2 <= moves@[i].1 <= 2,
    ensures
        is_choice_first(moves@, rx as int, ry as int, px as int, py as int, m),
{
    let mut best: (i32, i32) = (0, 0);
    let mut best_d: i32 = i32::MAX;
    let mut found = false;
    let ghost mut best_i: int = 0;
    let mut k: usize = 0;
    while k < moves.len()
        invariant
            k <= moves@.len(),
            in_bounds(rx as int, ry as int),
            in_bounds(px as int, py as int),
            forall|i: int| 0 <= i < moves@.len()
                ==> -2 <= (#[trigger] moves@[i]).0 <= 2 && -2 <= moves@[i].1 <= 2,
            !found ==> best == (0i32, 0i32),
            !found ==> forall|j: int|
                0 <= j < k ==> !off_ok(rx as int, ry as int, #[trigger] moves@[j]),
            found ==> {
                &&& 0 <= best_i < k
                &&& best == moves@[best_i]
                &&& off_ok(rx as int, ry as int, moves@[best_i])
                &&& best_d == off_dist(rx as int, ry as int, px as int, py as int, moves@[best_i])
                &&& forall|j: int|
                    0 <= j < k && off_ok(rx as int, ry as int, #[trigger] moves@[j])
                        ==> best_d <= off_dist(rx as int, ry as int, px as int, py as int, moves@[j])
                &&& forall|j: int|
                    0 <= j < best_i && off_ok(rx as int, ry as int, #[trigger] moves@[j])
                        ==> off_dist(rx as int, ry as int, px as int, py as int, moves@[j]) > best_d
            },
        decreases moves@.len() - k,
    {
        let mv = moves[k];
        let nx = rx + mv.0;
        let ny = ry + mv.1;
        if 1 <= nx && nx <= BOARD_WIDTH && 1 <= ny && ny <= BOARD_HEIGHT {
            let d = landing_dist(rx, ry, px, py, mv);
            if !found || d < best_d {
                best = mv;
                best_d = d;
                found = true;
                proof { best_i = k as int; }
            }
        }
        k = k + 1;
    }
    best
}

/// The in-bounds candidate with the least landing distance, last one on a
/// tie; the zero offset when no candidate is in bounds.
fn choose_min_last(rx: i32, ry: i32, px: i32, py: i32, moves: &Vec<(i32, i32)>) -> (m: (i32, i32))
    requires
        in_bounds(rx as int, ry as int),
        in_bounds(px as int, py as int),
        forall|i: int| 0 <= i < moves@.len()
            ==> -2 <= (#[trigger] moves@[i]).0 <= 2 && -2 <= moves@[i].1 <= 2,
    ensures
        is_choice_last(moves@, rx as int, ry as int, px as int, py as int, m),
{
    let mut best: (i32, i32) = (0, 0);
    let mut best_d: i32 = i32::MAX;
    let mut found = false;
    let ghost mut best_i: int = 0;
    let mut k: usize = 0;
    while k < moves.len()
        invariant
            k <= moves@.len(),
            in_bounds(rx as int, ry as int),
            in_bounds(px as int, py as int),
            forall|i: int| 0 <= i < moves@.len()
                ==> -2 <= (#[trigger] moves@[i]).0 <= 2 && -2 <= moves@[i].1 <= 2,
            !found ==> best == (0i32, 0i32),
            !found ==> forall|j: int|
                0 <= j < k ==> !off_ok(rx as int, ry as int, #[trigger] moves@[j]),
            found ==> {
                &&& 0 <= best_i < k
                &&& best == moves@[best_i]
                &&& off_ok(rx as int, ry as int, moves@[best_i])
                &&& best_d == off_dist(rx as int, ry as int, px as int, py as int, moves@[best_i])
                &&& forall|j: int|
                    0 <= j < k && off_ok(rx as int, ry as int, #[trigger] moves@[j])
                        ==> best_d <= off_dist(rx as int, ry as int, px as int, py as int, moves@[j])
                &&& forall|j: int|
                    best_i < j < k && off_ok(rx as int, ry as int, #[trigger] moves@[j])
                        ==> off_dist(rx as int, ry as int, px as int, py as int, moves@[j]) > best_d
            },
        decreases moves@.len() - k,
    {
        let mv = moves[k];
        let nx = rx + mv.0;
        let ny = ry + mv.1;
        if 1 <= nx && nx <= BOARD_WIDTH && 1 <= ny && ny <= BOARD_HEIGHT {
            let d = landing_dist(rx, ry, px, py, mv);
            if !found || d <= best_d {
                best = mv;
                best_d = d;
                found = true;
                proof { best_i = k as int; }
            }
        }
        k = k + 1;
    }
    best
}

} // verus!
