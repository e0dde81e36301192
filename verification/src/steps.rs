//! One tick's move of a single robot, per movement kind: the chosen step,
//! the collision with the player, and the landing on the progressively
//! marked board.
use vstd::prelude::*;
use crate::{BOARD_WIDTH, BOARD_HEIGHT, in_bounds};
use crate::board::{Board, Cell};
use crate::entities::{Player, DumbRobot, JunkHeap, RobotKind};
use crate::movement::{toward, abs_i, is_choice_first, is_choice_last, leaper_offsets, slider_dirs,
    leaper_choose, slider_choose};
use crate::rng::rand_range;

verus! {

/// The junk heap record at (x, y).
pub open spec fn mk_heap(x: int, y: int) -> JunkHeap {
    JunkHeap { pos_x: x as i32, pos_y: y as i32 }
}

/// Boards `a` and `b` agree on every cell.
pub open spec fn cells_eq(a: Board, b: Board) -> bool {
    forall|x: int, y: int| in_bounds(x, y) ==> #[trigger] a.cell(x, y) == #[trigger] b.cell(x, y)
}

/// Board `b` is board `a` with the cell at (sx, sy) set to `c`.
pub open spec fn cells_set(a: Board, b: Board, sx: int, sy: int, c: Cell) -> bool {
    &&& b.cell(sx, sy) == c
    &&& forall|x: int, y: int|
        in_bounds(x, y) && !(x == sx && y == sy) ==> #[trigger] b.cell(x, y) == #[trigger] a.cell(x, y)
}

/// Board `b1` differs from board `b0` only by cells newly marked `Robot`:
/// every cell that was not `Empty` keeps its value.
pub open spec fn marks_only(b0: Board, b1: Board) -> bool {
    forall|x: int, y: int|
        in_bounds(x, y) && b0.cell(x, y) != Cell::Empty
            ==> #[trigger] b1.cell(x, y) == b0.cell(x, y)
}

/// What landing a Walker or Leaper at (lx, ly) does, given board `b0`,
/// junk heaps `j0` and score `s0` just before the landing: an `Empty` cell is
/// marked `Robot`; a cell already marked `Robot` scraps the lander, with a
/// junk heap at the cell and +2 score; a `Junk` cell scraps it with +1 score.
pub open spec fn landed(
    b0: Board, b1: Board, j0: Seq<JunkHeap>, j1: Seq<JunkHeap>,
    s0: int, s1: int, scrap: bool, lx: int, ly: int,
) -> bool {
    match b0.cell(lx, ly) {
        Cell::Empty => {
            &&& cells_set(b0, b1, lx, ly, Cell::Robot)
            &&& j1 == j0
            &&& s1 == s0
            &&& !scrap
        },
        Cell::Robot => {
            &&& cells_eq(b0, b1)
            &&& j1 == j0.push(mk_heap(lx, ly))
            &&& s1 == s0 + 2
            &&& scrap
        },
        Cell::Junk => {
            &&& cells_eq(b0, b1)
            &&& j1 == j0
            &&& s1 == s0 + 1
            &&& scrap
        },
    }
}

/// The fields of the player a robot's step never touches.
pub open spec fn player_frame(p0: Player, p1: Player) -> bool {
    &&& p1.username == p0.username
    &&& p1.pos_x == p0.pos_x
    &&& p1.pos_y == p0.pos_y
    &&& p1.safe_teleports == p0.safe_teleports
    &&& p1.bombs == p0.bombs
}

/// What one tick's move of a live Walker `r`, not standing on junk, does:
/// the exact relation between the states before (`p0`, `b0`, `j0`) and after
/// (`p1`, `b1`, `j1`) the move, and the robot's new record `r2`.
pub open spec fn walker_moved(
    r: DumbRobot, r2: DumbRobot, p0: Player, p1: Player,
    b0: Board, b1: Board, j0: Seq<JunkHeap>, j1: Seq<JunkHeap>,
) -> bool {
    let px = p0.pos_x as int;
    let py = p0.pos_y as int;
    let tx = toward(r.pos_x as int, px);
    let ty = toward(r.pos_y as int, py);
    &&& r2.wf()
    &&& r2.kind == r.kind
    &&& b1.wf()
    &&& p1.wf()
    &&& p1.score >= p0.score
    &&& player_frame(p0, p1)
    &&& j1.len() >= j0.len()
    &&& (p1.invincible ==> p0.invincible)
    &&& marks_only(b0, b1)
    &&& if tx == px && ty == py && p0.invincible {
        &&& r2.pos_x == r.pos_x
        &&& r2.pos_y == r.pos_y
        &&& !p1.invincible
        &&& p1.is_alive == p0.is_alive
        &&& landed(
            b0, b1, j0.push(mk_heap(r.pos_x as int, r.pos_y as int)), j1,
            p0.score + 1, p1.score as int, r2.is_scrap, r.pos_x as int, r.pos_y as int,
        )
    } else {
        &&& r2.pos_x as int == tx
        &&& r2.pos_y as int == ty
        &&& p1.invincible == p0.invincible
        &&& p1.is_alive == (p0.is_alive && !(tx == px && ty == py))
        &&& landed(b0, b1, j0, j1, p0.score as int, p1.score as int, r2.is_scrap, tx, ty)
    }
}

/// What one tick's move of a live Leaper `r`, not standing on junk, does.
/// On a bounce the junk heap's cell is random within one step of the
/// collision cell, so only that much is stated of it.
pub open spec fn leaper_moved(
    r: DumbRobot, r2: DumbRobot, p0: Player, p1: Player,
    b0: Board, b1: Board, j0: Seq<JunkHeap>, j1: Seq<JunkHeap>,
) -> bool {
    &&& r2.wf()
    &&& r2.kind == r.kind
    &&& b1.wf()
    &&& p1.wf()
    &&& p1.score >= p0.score
    &&& player_frame(p0, p1)
    &&& j1.len() >= j0.len()
    &&& (p1.invincible ==> p0.invincible)
    &&& marks_only(b0, b1)
    &&& exists|m: (i32, i32)|
        {
            let px = p0.pos_x as int;
            let py = p0.pos_y as int;
            let tx = r.pos_x as int + m.0;
            let ty = r.pos_y as int + m.1;
            &&& #[trigger] is_choice_first(
                leaper_offsets(), r.pos_x as int, r.pos_y as int,
                p0.pos_x as int, p0.pos_y as int, m,
            )
            &&& if tx == px && ty == py && p0.invincible {
                &&& r2.pos_x == r.pos_x
                &&& r2.pos_y == r.pos_y
                &&& !p1.invincible
                &&& p1.is_alive == p0.is_alive
                &&& j1.len() > j0.len()
                &&& ({
                    let h = j1[j0.len() as int];
                    &&& h.wf()
                    &&& abs_i(h.pos_x - px) <= 1
                    &&& abs_i(h.pos_y - py) <= 1
                    &&& landed(
                        b0, b1, j0.push(h), j1,
                        p0.score + 1, p1.score as int,
                        r2.is_scrap, r.pos_x as int, r.pos_y as int,
                    )
                })
            } else {
                &&& r2.pos_x as int == tx
                &&& r2.pos_y as int == ty
                &&& p1.invincible == p0.invincible
                &&& p1.is_alive == (p0.is_alive && !(tx == px && ty == py))
                &&& landed(b0, b1, j0, j1, p0.score as int, p1.score as int, r2.is_scrap, tx, ty)
            }
        }
}

/// What one tick's move of a live Slider `r` does. A Slider never marks the
/// board: `b1` equals `b0`.
pub open spec fn slider_moved(
    r: DumbRobot, r2: DumbRobot, p0: Player, p1: Player,
    b0: Board, b1: Board, j0: Seq<JunkHeap>, j1: Seq<JunkHeap>,
) -> bool {
    &&& r2.wf()
    &&& r2.kind == r.kind
    &&& p1.wf()
    &&& p1.score >= p0.score
    &&& player_frame(p0, p1)
    &&& j1.len() >= j0.len()
    &&& (p1.invincible ==> p0.invincible)
    &&& b1 == b0
    &&& exists|m: (i32, i32)|
        {
            &&& #[trigger] is_choice_last(
                slider_dirs(), r.pos_x as int, r.pos_y as int,
                p0.pos_x as int, p0.pos_y as int, m,
            )
            &&& ({
                let res = slide(
                    b0, p0.pos_x as int, p0.pos_y as int,
                    p0.invincible, r.pos_x as int, r.pos_y as int,
                    m.0 as int, m.1 as int,
                );
                &&& r2.pos_x as int == res.x
                &&& r2.pos_y as int == res.y
                &&& match res.end {
                    SlideEnd::Edge | SlideEnd::Aligned => {
                        &&& !r2.is_scrap
                        &&& j1 == j0
                        &&& p1.score == p0.score
                        &&& p1.is_alive == p0.is_alive
                        &&& p1.invincible == p0.invincible
                    },
                    SlideEnd::Bounce => {
                        &&& !r2.is_scrap
                        &&& j1 == j0.push(mk_heap(res.x, res.y))
                        &&& p1.score == p0.score + 1
                        &&& p1.is_alive == p0.is_alive
                        &&& !p1.invincible
                    },
                    SlideEnd::Kill => {
                        &&& !r2.is_scrap
                        &&& j1 == j0
                        &&& p1.score == p0.score
                        &&& !p1.is_alive
                        &&& p1.invincible == p0.invincible
                    },
                    SlideEnd::HitRobot => {
                        &&& r2.is_scrap
                        &&& j1 == j0.push(mk_heap(res.x, res.y))
                        &&& p1.score == p0.score + 2
                        &&& p1.is_alive == p0.is_alive
                        &&& p1.invincible == p0.invincible
                    },
                    SlideEnd::HitJunk => {
                        &&& r2.is_scrap
                        &&& j1 == j0
                        &&& p1.score == p0.score + 1
                        &&& p1.is_alive == p0.is_alive
                        &&& p1.invincible == p0.invincible
                    },
                }
            })
        }
}

/// Mark the landing of a robot at its new position: the shared post-move
/// check of Walker and Leaper against the progressively marked board.
fn land(r2: &mut DumbRobot, player: &mut Player, board: &mut Board, junk: &mut Vec<JunkHeap>)
    requires
        old(r2).wf(),
        !old(r2).is_scrap,
        old(board).wf(),
        old(player).score + 2 <= i32::MAX,
        old(player).score >= 0,
    ensures
        final(r2).pos_x == old(r2).pos_x,
        final(r2).pos_y == old(r2).pos_y,
        final(r2).kind == old(r2).kind,
        final(board).wf(),
        final(player).is_alive == old(player).is_alive,
        final(player).invincible == old(player).invincible,
        player_frame(*old(player), *final(player)),
        landed(
            *old(board), *final(board), old(junk)@, final(junk)@,
            old(player).score as int, final(player).score as int,
            final(r2).is_scrap, old(r2).pos_x as int, old(r2).pos_y as int,
        ),
        marks_only(*old(board), *final(board)),
{
    match board.get(r2.pos_x, r2.pos_y) {
        Cell::Empty => {
            board.set(r2.pos_x, r2.pos_y, Cell::Robot);
        },
        Cell::Robot => {
            r2.is_scrap = true;
            player.score = player.score + 2;
            junk.push(JunkHeap { pos_x: r2.pos_x, pos_y: r2.pos_y });
        },
        Cell::Junk => {
            r2.is_scrap = true;
            player.score = player.score + 1;
        },
    }
}

/// One tick's move of a Walker: one step per axis toward the player. Landing
/// on an invincible player bounces the Walker back to its old cell, turns
/// that cell into a junk heap, grants +1 score and consumes the
/// invincibility; landing on a mortal player kills the player. The landing
/// cell is then resolved against the board as `landed` states.
pub fn step_walker(r: DumbRobot, player: &mut Player, board: &mut Board, junk: &mut Vec<JunkHeap>) -> (r2: DumbRobot)
    requires
        r.wf(),
        !r.is_scrap,
        old(player).wf(),
        old(board).wf(),
        old(board).cell(r.pos_x as int, r.pos_y as int) != Cell::Junk,
        old(player).score + 3 <= i32::MAX,
    ensures
        walker_moved(
            r, r2, *old(player), *final(player), *old(board), *final(board),
            old(junk)@, final(junk)@,
        ),
        old(player).invincible && !final(player).invincible ==> {
            &&& final(player).score >= old(player).score + 1
            &&& final(junk)@.len() >= old(junk)@.len() + 1
        },
{
    let ox = r.pos_x;
    let oy = r.pos_y;
    let mut nx = ox;
    let mut ny = oy;
    if nx < player.pos_x {
        nx = nx + 1;
    } else if nx > player.pos_x {
        nx = nx - 1;
    }
    if ny < player.pos_y {
        ny = ny + 1;
    } else if ny > player.pos_y {
        ny = ny - 1;
    }
    let mut r2 = DumbRobot { pos_x: nx, pos_y: ny, is_scrap: false, kind: r.kind };
    if nx == player.pos_x && ny == player.pos_y {
        if player.invincible {
            r2.pos_x = ox;
            r2.pos_y = oy;
            junk.push(JunkHeap { pos_x: ox, pos_y: oy });
            player.score = player.score + 1;
            player.invincible = false;
        } else {
            player.is_alive = false;
        }
    }
    land(&mut r2, player, board, junk);
    r2
}

/// Clamp `v` into `[lo, hi]`.
fn clamp(v: i32, lo: i32, hi: i32) -> (c: i32)
    requires
        lo <= hi,
    ensures
        lo <= c <= hi,
        lo <= v <= hi ==> c == v,
        v < lo ==> c == lo,
        v > hi ==> c == hi,
{
    if v < lo {
        lo
    } else if v > hi {
        hi
    } else {
        v
    }
}

/// One tick's move of a Leaper: the knight-like jump `leaper_choose` picks.
/// Landing on an invincible player bounces the Leaper back to its old cell
/// and leaves the junk heap at a uniformly random cell within one step of
/// the collision cell on each axis (clamped onto the board), with +1 score
/// and the invincibility consumed; landing on a mortal player kills the
/// player. The landing cell is then resolved against the board as `landed`
/// states.
pub fn step_leaper(r: DumbRobot, player: &mut Player, board: &mut Board, junk: &mut Vec<JunkHeap>) -> (r2: DumbRobot)
    requires
        r.wf(),
        !r.is_scrap,
        old(player).wf(),
        old(board).wf(),
        old(board).cell(r.pos_x as int, r.pos_y as int) != Cell::Junk,
        old(player).score + 3 <= i32::MAX,
    ensures
        leaper_moved(
            r, r2, *old(player), *final(player), *old(board), *final(board),
            old(junk)@, final(junk)@,
        ),
        old(player).invincible && !final(player).invincible ==> {
            &&& final(player).score >= old(player).score + 1
            &&& final(junk)@.len() >= old(junk)@.len() + 1
        },
{
    let ox = r.pos_x;
    let oy = r.pos_y;
    let mv = leaper_choose(ox, oy, player.pos_x, player.pos_y);
    let nx = ox + mv.0;
    let ny = oy + mv.1;
    let mut r2 = DumbRobot { pos_x: nx, pos_y: ny, is_scrap: false, kind: r.kind };
    if nx == player.pos_x && ny == player.pos_y {
        if player.invincible {
            r2.pos_x = ox;
            r2.pos_y = oy;
            let hx = clamp(player.pos_x + rand_range(-1, 2), 1, BOARD_WIDTH);
            let hy = clamp(player.pos_y + rand_range(-1, 2), 1, BOARD_HEIGHT);
            junk.push(JunkHeap { pos_x: hx, pos_y: hy });
            player.score = player.score + 1;
            player.invincible = false;
        } else {
            player.is_alive = false;
        }
    }
    land(&mut r2, player, board, junk);
    r2
}

/// How a Slider's slide ended.
#[derive(Clone, Copy, PartialEq, Eq, Structural, Debug)]
pub enum SlideEnd {
    /// The next cell would leave the board; the Slider stays where it is.
    Edge,
    /// The next cell held an invincible player; the Slider stays put and its
    /// cell becomes a junk heap.
    Bounce,
    /// The next cell held a mortal player; the Slider lands there and the
    /// player dies.
    Kill,
    /// The next cell was marked `Robot`; the Slider scraps one cell short.
    HitRobot,
    /// The next cell was marked `Junk`; the Slider scraps one cell short.
    HitJunk,
    /// The Slider stepped onto the player's row or column and stops there.
    Aligned,
}

/// Final cell of a slide, and how it ended.
pub ghost struct SlideRes {
    pub x: int,
    pub y: int,
    pub end: SlideEnd,
}

/// Bound on the number of steps a slide in direction (dx, dy) can still
/// take from (cx, cy) before leaving the board.
pub open spec fn slide_fuel(cx: int, cy: int, dx: int, dy: int) -> int {
    if dx > 0 {
        BOARD_WIDTH - cx
    } else if dx < 0 {
        cx
    } else if dy > 0 {
        BOARD_HEIGHT - cy
    } else {
        cy
    }
}

/// The slide of a Slider standing at (cx, cy), in unit direction (dx, dy),
/// against board `b` with the player at (px, py): it advances cell by cell
/// through `Empty` cells until it would leave the board, meets the player,
/// meets an occupied cell, or steps onto the player's row or column.
pub open spec fn slide(b: Board, px: int, py: int, inv: bool, cx: int, cy: int, dx: int, dy: int) -> SlideRes
    decreases slide_fuel(cx, cy, dx, dy),
{
    if !in_bounds(cx, cy) || (dx == 0 && dy == 0) {
        SlideRes { x: cx, y: cy, end: SlideEnd::Edge }
    } else {
        let nx = cx + dx;
        let ny = cy + dy;
        if !in_bounds(nx, ny) {
            SlideRes { x: cx, y: cy, end: SlideEnd::Edge }
        } else if nx == px && ny == py {
            if inv {
                SlideRes { x: cx, y: cy, end: SlideEnd::Bounce }
            } else {
                SlideRes { x: nx, y: ny, end: SlideEnd::Kill }
            }
        } else {
            match b.cell(nx, ny) {
                Cell::Empty => if nx == px || ny == py {
                    SlideRes { x: nx, y: ny, end: SlideEnd::Aligned }
                } else {
                    slide(b, px, py, inv, nx, ny, dx, dy)
                },
                Cell::Robot => SlideRes { x: cx, y: cy, end: SlideEnd::HitRobot },
                Cell::Junk => SlideRes { x: cx, y: cy, end: SlideEnd::HitJunk },
            }
        }
    }
}

/// One tick's move of a Slider: it slides in the direction `slider_choose`
/// picks, as the `slide` function states, and is never marked on the board.
/// A `Bounce` consumes the player's invincibility, grants +1 score and
/// leaves a junk heap at the Slider's cell; a `Kill` kills the player;
/// hitting a `Robot` cell scraps the Slider with +2 score and a junk heap at
/// its final cell; hitting a `Junk` cell scraps it with +1 score and no new
/// heap.
pub fn step_slider(r: DumbRobot, player: &mut Player, board: &Board, junk: &mut Vec<JunkHeap>) -> (r2: DumbRobot)
    requires
        r.wf(),
        !r.is_scrap,
        old(player).wf(),
        board.wf(),
        old(player).score + 2 <= i32::MAX,
    ensures
        slider_moved(
            r, r2, *old(player), *final(player), *board, *board,
            old(junk)@, final(junk)@,
        ),
        old(player).invincible && !final(player).invincible ==> {
            &&& final(player).score >= old(player).score + 1
            &&& final(junk)@.len() >= old(junk)@.len() + 1
        },
{
    let px = player.pos_x;
    let py = player.pos_y;
    let inv = player.invincible;
    let mv = slider_choose(r.pos_x, r.pos_y, px, py);
    let mut r2 = DumbRobot { pos_x: r.pos_x, pos_y: r.pos_y, is_scrap: false, kind: r.kind };
    if mv.0 == 0 && mv.1 == 0 {
        return r2;
    }
    let dx = mv.0;
    let dy = mv.1;
    let ghost res = slide(*board, px as int, py as int, inv, r.pos_x as int, r.pos_y as int, dx as int, dy as int);
    let mut cx = r.pos_x;
    let mut cy = r.pos_y;
    let mut ending = SlideEnd::Edge;
    let mut done = false;
    while !done
        invariant
            board.wf(),
            in_bounds(cx as int, cy as int),
            in_bounds(px as int, py as int),
            -1 <= dx <= 1,
            -1 <= dy <= 1,
            !(dx == 0 && dy == 0),
            !done ==> slide(*board, px as int, py as int, inv, cx as int, cy as int, dx as int, dy as int) == res,
            done ==> res == (SlideRes { x: cx as int, y: cy as int, end: ending }),
        decreases slide_fuel(cx as int, cy as int, dx as int, dy as int) + (if done { 0int } else { 1int }),
    {
        let nx = cx + dx;
        let ny = cy + dy;
        if !(1 <= nx && nx <= BOARD_WIDTH && 1 <= ny && ny <= BOARD_HEIGHT) {
            ending = SlideEnd::Edge;
            done = true;
        } else if nx == px && ny == py {
            if inv {
                ending = SlideEnd::Bounce;
                done = true;
            } else {
                cx = nx;
                cy = ny;
                ending = SlideEnd::Kill;
                done = true;
            }
        } else {
            match board.get(nx, ny) {
                Cell::Empty => {
                    cx = nx;
                    cy = ny;
                    if nx == px || ny == py {
                        ending = SlideEnd::Aligned;
                        done = true;
                    }
                },
                Cell::Robot => {
                    ending = SlideEnd::HitRobot;
                    done = true;
                },
                Cell::Junk => {
                    ending = SlideEnd::HitJunk;
                    done = true;
                },
            }
        }
    }
    r2.pos_x = cx;
    r2.pos_y = cy;
    match ending {
        SlideEnd::Edge | SlideEnd::Aligned => {},
        SlideEnd::Bounce => {
            junk.push(JunkHeap { pos_x: cx, pos_y: cy });
            player.score = player.score + 1;
            player.invincible = false;
        },
        SlideEnd::Kill => {
            player.is_alive = false;
        },
        SlideEnd::HitRobot => {
            r2.is_scrap = true;
            player.score = player.score + 2;
            junk.push(JunkHeap { pos_x: cx, pos_y: cy });
        },
        SlideEnd::HitJunk => {
            r2.is_scrap = true;
            player.score = player.score + 1;
        },
    }
    r2
}

} // verus!
