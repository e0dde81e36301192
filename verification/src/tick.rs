//! The tick resolver: one discrete turn of the simulation. It rebuilds the
//! board from the junk heaps, resolves a pending bomb, moves every live
//! robot in insertion order against the progressively marked board, rolls
//! the item's visibility, applies the safety net on the player's cell, and
//! resolves an item pickup.
use vstd::prelude::*;
use crate::in_bounds;
use crate::board::{Board, Cell};
use crate::entities::{Player, DumbRobot, JunkHeap, Item, ItemKind, GameState, RobotKind};
use crate::steps::{mk_heap, step_walker, step_leaper, step_slider,
    walker_moved, leaper_moved, slider_moved};
use crate::rng::rand_range;

verus! {

/// The twelve offsets of the bomb's blast pattern around the player: two
/// cells in each cardinal direction and the four near diagonals.
pub open spec fn blast_offsets() -> Seq<(i32, i32)> {
    seq![(0i32, -2i32), (-1i32, -1i32), (1i32, -1i32), (0i32, -1i32),
         (-2i32, 0i32), (-1i32, 0i32), (1i32, 0i32), (2i32, 0i32),
         (-1i32, 1i32), (1i32, 1i32), (0i32, 1i32), (0i32, 2i32)]
}

/// (rx, ry) is one of the blast cells of a bomb centered on (px, py).
pub open spec fn in_blast(px: int, py: int, rx: int, ry: int) -> bool {
    exists|k: int|
        0 <= k < blast_offsets().len()
        && rx == px + (#[trigger] blast_offsets()[k]).0 && ry == py + blast_offsets()[k].1
}

/// The junk heaps a bomb centered on (px, py) leaves: one heap per robot
/// entry standing on a blast cell, in robot order.
pub open spec fn blast_heaps(robots: Seq<DumbRobot>, px: int, py: int) -> Seq<JunkHeap>
    decreases robots.len(),
{
    if robots.len() == 0 {
        Seq::empty()
    } else {
        blast_heaps(robots.drop_last(), px, py)
            + (if in_blast(px, py, robots.last().pos_x as int, robots.last().pos_y as int) {
                seq![mk_heap(robots.last().pos_x as int, robots.last().pos_y as int)]
            } else {
                Seq::empty()
            })
    }
}

/// Whether the robot at (rx, ry) stands on a blast cell of a bomb at
/// (px, py).
fn is_in_blast(px: i32, py: i32, rx: i32, ry: i32) -> (b: bool)
    requires
        in_bounds(px as int, py as int),
        in_bounds(rx as int, ry as int),
    ensures
        b == in_blast(px as int, py as int, rx as int, ry as int),
{
    let offs: Vec<(i32, i32)> = vec![
        (0, -2), (-1, -1), (1, -1), (0, -1),
        (-2, 0), (-1, 0), (1, 0), (2, 0),
        (-1, 1), (1, 1), (0, 1), (0, 2),
    ];
    proof {
        assert(offs@ =~= blast_offsets());
    }
    let mut k: usize = 0;
    while k < offs.len()
        invariant
            k <= offs@.len(),
            offs@ =~= blast_offsets(),
            in_bounds(px as int, py as int),
            forall|j: int| 0 <= j < offs@.len()
                ==> -2 <= (#[trigger] offs@[j]).0 <= 2 && -2 <= offs@[j].1 <= 2,
            forall|j: int| 0 <= j < k
                ==> !(rx as int == px as int + (#[trigger] offs@[j]).0
                    && ry as int == py as int + offs@[j].1),
        decreases offs@.len() - k,
    {
        let off = offs[k];
        if rx == px + off.0 && ry == py + off.1 {
            return true;
        }
        k = k + 1;
    }
    false
}

/// What a detonation does: every robot entry standing on one of the twelve
/// blast cells becomes scrap, grants +1 score and leaves a junk heap at its
/// cell; no robot moves and nothing else of the player changes.
pub open spec fn bombed(
    robots0: Seq<DumbRobot>, robots1: Seq<DumbRobot>, p0: Player, p1: Player,
    j0: Seq<JunkHeap>, j1: Seq<JunkHeap>,
) -> bool {
    &&& robots1.len() == robots0.len()
    &&& forall|i: int| 0 <= i < robots0.len() ==> {
        let r0 = robots0[i];
        let r1 = #[trigger] robots1[i];
        &&& r1.pos_x == r0.pos_x
        &&& r1.pos_y == r0.pos_y
        &&& r1.kind == r0.kind
        &&& r1.is_scrap == (r0.is_scrap
            || in_blast(p0.pos_x as int, p0.pos_y as int, r0.pos_x as int, r0.pos_y as int))
    }
    &&& j1 == j0 + blast_heaps(robots0, p0.pos_x as int, p0.pos_y as int)
    &&& p1.score == p0.score + blast_heaps(robots0, p0.pos_x as int, p0.pos_y as int).len()
    &&& p1 == (Player { score: p1.score, ..p0 })
}

/// Detonate a bomb centered on the player, as `bombed` states.
pub fn apply_bomb(player: &mut Player, robots: &mut Vec<DumbRobot>, junk: &mut Vec<JunkHeap>)
    requires
        old(player).wf(),
        forall|i: int| 0 <= i < old(robots)@.len() ==> (#[trigger] old(robots)@[i]).wf(),
        old(player).score + old(robots)@.len() <= i32::MAX,
    ensures
        final(player).wf(),
        bombed(old(robots)@, final(robots)@, *old(player), *final(player), old(junk)@, final(junk)@),
{
    let ghost px = player.pos_x as int;
    let ghost py = player.pos_y as int;
    let mut i: usize = 0;
    while i < robots.len()
        invariant
            i <= robots@.len(),
            player.wf(),
            robots@.len() == old(robots)@.len(),
            forall|j: int| 0 <= j < old(robots)@.len() ==> (#[trigger] old(robots)@[j]).wf(),
            forall|j: int| i <= j < robots@.len() ==> #[trigger] robots@[j] == old(robots)@[j],
            forall|j: int| 0 <= j < i ==> {
                let r0 = old(robots)@[j];
                let r1 = #[trigger] robots@[j];
                &&& r1.pos_x == r0.pos_x
                &&& r1.pos_y == r0.pos_y
                &&& r1.kind == r0.kind
                &&& r1.is_scrap == (r0.is_scrap || in_blast(px, py, r0.pos_x as int, r0.pos_y as int))
            },
            junk@ == old(junk)@ + blast_heaps(old(robots)@.take(i as int), px, py),
            player.score == old(player).score + blast_heaps(old(robots)@.take(i as int), px, py).len(),
            player.score + (old(robots)@.len() - i) <= i32::MAX,
            *player == (Player { score: player.score, ..*old(player) }),
            px == player.pos_x as int,
            py == player.pos_y as int,
        decreases robots@.len() - i,
    {
        proof {
            assert(blast_heaps(old(robots)@.take(i as int), px, py).len() <= i as int) by {
                lemma_blast_heaps_len(old(robots)@.take(i as int), px, py);
            }
            assert(old(robots)@.take(i as int + 1).drop_last() =~= old(robots)@.take(i as int));
            assert(old(robots)@.take(i as int + 1).last() == old(robots)@[i as int]);
        }
        let r = robots[i];
        if is_in_blast(player.pos_x, player.pos_y, r.pos_x, r.pos_y) {
            robots[i] = DumbRobot { is_scrap: true, ..r };
            player.score = player.score + 1;
            junk.push(JunkHeap { pos_x: r.pos_x, pos_y: r.pos_y });
        }
        i = i + 1;
    }
    proof {
        assert(old(robots)@.take(robots@.len() as int) =~= old(robots)@);
    }
}

/// The heap list a blast leaves holds at most one heap per robot entry.
proof fn lemma_blast_heaps_len(robots: Seq<DumbRobot>, px: int, py: int)
    ensures
        blast_heaps(robots, px, py).len() <= robots.len(),
    decreases robots.len(),
{
    if robots.len() > 0 {
        lemma_blast_heaps_len(robots.drop_last(), px, py);
    }
}

/// Every heap a blast leaves lies on the board, the robots doing so.
proof fn lemma_blast_heaps_wf(robots: Seq<DumbRobot>, px: int, py: int)
    requires
        forall|i: int| 0 <= i < robots.len() ==> (#[trigger] robots[i]).wf(),
    ensures
        forall|k: int| 0 <= k < blast_heaps(robots, px, py).len()
            ==> (#[trigger] blast_heaps(robots, px, py)[k]).wf(),
    decreases robots.len(),
{
    if robots.len() > 0 {
        assert(forall|i: int| 0 <= i < robots.drop_last().len()
            ==> (#[trigger] robots.drop_last()[i]).wf());
        lemma_blast_heaps_wf(robots.drop_last(), px, py);
        let h = blast_heaps(robots, px, py);
        let h0 = blast_heaps(robots.drop_last(), px, py);
        assert(robots.last().wf());
        assert forall|k: int| 0 <= k < h.len() implies (#[trigger] h[k]).wf() by {
            if k < h0.len() {
                assert(h[k] == h0[k]);
            } else {
                assert(h[k] == mk_heap(robots.last().pos_x as int, robots.last().pos_y as int));
            }
        }
    }
}

/// What one turn does for one robot entry, relating the simulation state
/// just before its turn (`p0`, `b0`, `j0`) to the state just after (`p1`,
/// `b1`, `j1`) and the robot's new record `r2`: a scrap robot is inert; a
/// live robot standing on a junk cell scraps in place for +1 score; any
/// other live robot moves as its kind's step states.
pub open spec fn robot_tick_rel(
    r: DumbRobot, r2: DumbRobot, p0: Player, p1: Player,
    b0: Board, b1: Board, j0: Seq<JunkHeap>, j1: Seq<JunkHeap>,
) -> bool {
    if r.is_scrap {
        &&& r2 == r
        &&& p1 == p0
        &&& b1 == b0
        &&& j1 == j0
    } else if b0.cell(r.pos_x as int, r.pos_y as int) == Cell::Junk {
        &&& r2 == (DumbRobot { is_scrap: true, ..r })
        &&& p1 == (Player { score: (p0.score + 1) as i32, ..p0 })
        &&& p0.score < i32::MAX
        &&& b1 == b0
        &&& j1 == j0
    } else {
        match r.kind {
            RobotKind::Walker => walker_moved(r, r2, p0, p1, b0, b1, j0, j1),
            RobotKind::Leaper => leaper_moved(r, r2, p0, p1, b0, b1, j0, j1),
            RobotKind::Slider => slider_moved(r, r2, p0, p1, b0, b1, j0, j1),
        }
    }
}

/// The whole robot phase of a turn: the roster `robots0` is processed in
/// insertion order, each entry related to its successor state by
/// `robot_tick_rel`. `states` is the trace of intermediate simulation
/// states, one more than there are robots: `states[k]` holds the player,
/// the board and the junk heaps just before robot `k` takes its turn, so
/// each robot sees the marks and heaps its predecessors left.
pub open spec fn robots_moved(
    robots0: Seq<DumbRobot>, robots1: Seq<DumbRobot>,
    states: Seq<(Player, Board, Seq<JunkHeap>)>,
) -> bool {
    &&& states.len() == robots0.len() + 1
    &&& robots1.len() == robots0.len()
    &&& forall|k: int| 0 <= k < robots0.len() ==> #[trigger] robot_tick_rel(
        robots0[k], robots1[k],
        states[k].0, states[k + 1].0,
        states[k].1, states[k + 1].1,
        states[k].2, states[k + 1].2,
    )
}

/// A tick with no live robot and no pending bomb, whose player stands
/// neither on a junk heap nor on the (unclaimed) item: such a tick changes
/// nothing beyond the board rebuild and the item-visibility roll.
pub open spec fn quiet_tick(
    robots: Seq<DumbRobot>, state: GameState, junk: Seq<JunkHeap>, p: Player, item: Item,
) -> bool {
    &&& forall|i: int| 0 <= i < robots.len() ==> (#[trigger] robots[i]).is_scrap
    &&& !state.bomb_away
    &&& !Board::junk_at(junk, p.pos_x as int, p.pos_y as int)
    &&& (item.picked_up || !(p.pos_x == item.pos_x && p.pos_y == item.pos_y))
}

/// Advance the simulation by one turn. In order: rebuild the board from the
/// junk heaps; if a bomb is pending, consume the flag and detonate; move
/// every live robot in insertion order, each seeing the marks earlier robots
/// left this tick; reveal the item with a small random chance; kill the
/// player if its cell ended up marked; resolve an item pickup.
pub fn game_tick(
    player: &mut Player, dumb_robots: &mut Vec<DumbRobot>, junk_heaps: &mut Vec<JunkHeap>,
    game_board_data: &mut Board, item: &mut Item, game_state: &mut GameState,
)
    requires
        old(player).wf(),
        forall|i: int| 0 <= i < old(dumb_robots)@.len() ==> (#[trigger] old(dumb_robots)@[i]).wf(),
        forall|k: int| 0 <= k < old(junk_heaps)@.len() ==> (#[trigger] old(junk_heaps)@[k]).wf(),
        old(game_board_data).wf(),
        old(item).wf(),
        old(player).score + 4 * old(dumb_robots)@.len() <= i32::MAX,
        old(player).bombs < i32::MAX,
    ensures
        final(player).wf(),
        final(game_board_data).wf(),
        final(item).wf(),
        // The robot roster: same robots, same kinds, scrap frozen, survivors
        // on the board.
        final(dumb_robots)@.len() == old(dumb_robots)@.len(),
        forall|i: int| 0 <= i < old(dumb_robots)@.len()
            ==> (#[trigger] final(dumb_robots)@[i]).kind == old(dumb_robots)@[i].kind,
        forall|i: int| 0 <= i < old(dumb_robots)@.len() && old(dumb_robots)@[i].is_scrap
            ==> #[trigger] final(dumb_robots)@[i] == old(dumb_robots)@[i],
        forall|i: int| 0 <= i < old(dumb_robots)@.len()
            ==> (#[trigger] final(dumb_robots)@[i]).wf(),
        // Junk heaps only accumulate, and stay on the board.
        final(junk_heaps)@.len() >= old(junk_heaps)@.len(),
        forall|k: int| 0 <= k < old(junk_heaps)@.len()
            ==> #[trigger] final(junk_heaps)@[k] == old(junk_heaps)@[k],
        forall|k: int| 0 <= k < final(junk_heaps)@.len()
            ==> (#[trigger] final(junk_heaps)@[k]).wf(),
        // The player never moves during a tick; charges and name are kept;
        // the score never drops; death is one-way.
        final(player).pos_x == old(player).pos_x,
        final(player).pos_y == old(player).pos_y,
        final(player).username == old(player).username,
        final(player).safe_teleports == old(player).safe_teleports,
        final(player).score >= old(player).score,
        final(player).is_alive ==> old(player).is_alive,
        final(player).bombs == old(player).bombs
            + (if final(item).picked_up && !old(item).picked_up && old(item).kind == ItemKind::Bomb
                { 1int } else { 0int }),
        // The pending bomb is consumed; nothing else of the state changes.
        *final(game_state) == (GameState { bomb_away: false, ..*old(game_state) }),
        // The item keeps its identity; visibility and pickup are one-way.
        final(item).pos_x == old(item).pos_x,
        final(item).pos_y == old(item).pos_y,
        final(item).kind == old(item).kind,
        final(item).level == old(item).level,
        old(item).visible ==> final(item).visible,
        old(item).picked_up ==> final(item).picked_up,
        final(item).picked_up && !old(item).picked_up ==> {
            &&& old(player).pos_x == old(item).pos_x
            &&& old(player).pos_y == old(item).pos_y
            &&& final(item).visible
            &&& (old(item).kind == ItemKind::Invincibility ==> final(player).invincible)
        },
        // A live robot standing on a junk heap always scraps in place, +1.
        forall|i: int| 0 <= i < old(dumb_robots)@.len() && !old(dumb_robots)@[i].is_scrap
            && Board::junk_at(old(junk_heaps)@,
                old(dumb_robots)@[i].pos_x as int, old(dumb_robots)@[i].pos_y as int)
            ==> #[trigger] final(dumb_robots)@[i]
                == (DumbRobot { is_scrap: true, ..old(dumb_robots)@[i] }),
        // Invincibility appears only by picking the invincibility item up.
        !old(player).invincible && final(player).invincible
            ==> final(item).picked_up && !old(item).picked_up
                && old(item).kind == ItemKind::Invincibility,
        // A consumed invincibility absorbed a collision: it left a junk heap
        // and at least one point.
        old(player).invincible && !final(player).invincible ==> {
            &&& final(player).score >= old(player).score + 1
            &&& final(junk_heaps)@.len() >= old(junk_heaps)@.len() + 1
        },
        // A quiet tick is a no-op beyond the board rebuild and the
        // item-visibility roll.
        quiet_tick(old(dumb_robots)@, *old(game_state), old(junk_heaps)@, *old(player), *old(item))
            ==> {
                &&& final(dumb_robots)@ == old(dumb_robots)@
                &&& final(junk_heaps)@ == old(junk_heaps)@
                &&& *final(player) == *old(player)
                &&& *final(item) == (Item { visible: final(item).visible, ..*old(item) })
            },
        // The whole tick, phase by phase. The board is rebuilt from the old
        // junk heaps; a pending bomb detonates as `bombed` states, giving
        // the roster `ra` that the movement phase starts from; the robots
        // then move in insertion order along the state trace `states`, each
        // turn related to the one before by `robot_tick_rel`; the player
        // then dies exactly when their cell ended up occupied; and the item
        // is picked up exactly when the player stands on it and it is
        // visible (after the roll) and unclaimed, with its effect applied.
        exists|ra: Seq<DumbRobot>, states: Seq<(Player, Board, Seq<JunkHeap>)>|
            {
                &&& #[trigger] robots_moved(ra, final(dumb_robots)@, states)
                &&& ({
                    let pa = states[0].0;
                    let ba = states[0].1;
                    let ja = states[0].2;
                    let pb = states[states.len() - 1].0;
                    let bb = states[states.len() - 1].1;
                    &&& states[states.len() - 1].2 == final(junk_heaps)@
                    &&& Board::is_rebuilt(ba, old(junk_heaps)@)
                    &&& if old(game_state).bomb_away {
                        bombed(old(dumb_robots)@, ra, *old(player), pa, old(junk_heaps)@, ja)
                    } else {
                        &&& ra == old(dumb_robots)@
                        &&& pa == *old(player)
                        &&& ja == old(junk_heaps)@
                    }
                    &&& *final(game_board_data) == bb
                    &&& ({
                        let dead = bb.cell(old(player).pos_x as int, old(player).pos_y as int)
                            != Cell::Empty;
                        let pc = if dead { Player { is_alive: false, ..pb } } else { pb };
                        &&& final(item).picked_up == (old(item).picked_up
                            || (old(player).pos_x == old(item).pos_x
                                && old(player).pos_y == old(item).pos_y
                                && final(item).visible))
                        &&& *final(player) == (if final(item).picked_up && !old(item).picked_up {
                            match old(item).kind {
                                ItemKind::Invincibility => (Player { invincible: true, ..pc }),
                                ItemKind::Bomb => (Player {
                                    bombs: #[verifier::truncate] ((pc.bombs + 1) as i32),
                                    ..pc
                                }),
                            }
                        } else {
                            pc
                        })
                    })
                })
            },
{
    let ghost quiet = quiet_tick(
        old(dumb_robots)@, *old(game_state), old(junk_heaps)@, *old(player), *old(item),
    );

    game_board_data.rebuild(junk_heaps);

    if game_state.bomb_away {
        game_state.bomb_away = false;
        proof {
            lemma_blast_heaps_len(dumb_robots@, player.pos_x as int, player.pos_y as int);
        }
        apply_bomb(player, dumb_robots, junk_heaps);
        proof {
            lemma_blast_heaps_wf(old(dumb_robots)@, old(player).pos_x as int, old(player).pos_y as int);
        }
    }

    let ghost robots_mid = dumb_robots@;
    let ghost junk_mid = junk_heaps@;
    let ghost p_mid = *player;
    let ghost b_re = *game_board_data;
    let ghost mut states: Seq<(Player, Board, Seq<JunkHeap>)> = seq![(p_mid, b_re, junk_mid)];
    proof {
        assert(Board::is_rebuilt(b_re, old(junk_heaps)@));
    }

    let mut i: usize = 0;
    while i < dumb_robots.len()
        invariant
            i <= dumb_robots@.len(),
            player.wf(),
            game_board_data.wf(),
            dumb_robots@.len() == robots_mid.len(),
            robots_mid.len() == old(dumb_robots)@.len(),
            forall|j: int| 0 <= j < robots_mid.len() ==> (#[trigger] robots_mid[j]).wf(),
            forall|j: int| i <= j < dumb_robots@.len()
                ==> #[trigger] dumb_robots@[j] == robots_mid[j],
            forall|j: int| 0 <= j < i
                ==> (#[trigger] dumb_robots@[j]).kind == robots_mid[j].kind,
            forall|j: int| 0 <= j < i && robots_mid[j].is_scrap
                ==> #[trigger] dumb_robots@[j] == robots_mid[j],
            forall|j: int| 0 <= j < i ==> (#[trigger] dumb_robots@[j]).wf(),
            junk_mid.len() >= old(junk_heaps)@.len(),
            junk_heaps@.len() >= junk_mid.len(),
            forall|k: int| 0 <= k < junk_mid.len()
                ==> #[trigger] junk_heaps@[k] == junk_mid[k],
            forall|k: int| 0 <= k < junk_heaps@.len()
                ==> (#[trigger] junk_heaps@[k]).wf(),
            player.pos_x == old(player).pos_x,
            player.pos_y == old(player).pos_y,
            player.username == old(player).username,
            player.safe_teleports == old(player).safe_teleports,
            player.bombs == old(player).bombs,
            player.score >= old(player).score,
            player.is_alive ==> old(player).is_alive,
            player.score + 3 * (dumb_robots@.len() - i) <= i32::MAX,
            forall|x: int, y: int| in_bounds(x, y) && Board::junk_at(old(junk_heaps)@, x, y)
                ==> #[trigger] game_board_data.cell(x, y) == Cell::Junk,
            forall|j: int| 0 <= j < i && !robots_mid[j].is_scrap
                && Board::junk_at(old(junk_heaps)@,
                    robots_mid[j].pos_x as int, robots_mid[j].pos_y as int)
                ==> #[trigger] dumb_robots@[j] == (DumbRobot { is_scrap: true, ..robots_mid[j] }),
            player.invincible ==> old(player).invincible,
            old(player).invincible && !player.invincible ==> {
                &&& player.score >= old(player).score + 1
                &&& junk_heaps@.len() >= old(junk_heaps)@.len() + 1
            },
            quiet ==> {
                &&& dumb_robots@ == old(dumb_robots)@
                &&& junk_heaps@ == old(junk_heaps)@
                &&& *player == *old(player)
                &&& *game_board_data == b_re
            },
            quiet == quiet_tick(
                old(dumb_robots)@, *old(game_state), old(junk_heaps)@, *old(player), *old(item),
            ),
            states.len() == i + 1,
            states[0] == (p_mid, b_re, junk_mid),
            states[i as int] == (*player, *game_board_data, junk_heaps@),
            forall|k: int| 0 <= k < i ==> #[trigger] robot_tick_rel(
                robots_mid[k], dumb_robots@[k],
                states[k].0, states[k + 1].0,
                states[k].1, states[k + 1].1,
                states[k].2, states[k + 1].2,
            ),
        decreases dumb_robots@.len() - i,
    {
        let ghost p_pre = *player;
        let ghost b_pre = *game_board_data;
        let ghost j_pre = junk_heaps@;
        let ghost robots_pre = dumb_robots@;
        let r = dumb_robots[i];
        if !r.is_scrap {
            if matches!(game_board_data.get(r.pos_x, r.pos_y), Cell::Junk) {
                dumb_robots[i] = DumbRobot { is_scrap: true, ..r };
                player.score = player.score + 1;
            } else {
                let r2 = match r.kind {
                    RobotKind::Walker => step_walker(r, player, game_board_data, junk_heaps),
                    RobotKind::Leaper => step_leaper(r, player, game_board_data, junk_heaps),
                    RobotKind::Slider => step_slider(r, player, game_board_data, junk_heaps),
                };
                dumb_robots[i] = r2;
            }
        }
        proof {
            assert(robot_tick_rel(
                robots_mid[i as int], dumb_robots@[i as int], p_pre, *player,
                b_pre, *game_board_data, j_pre, junk_heaps@,
            ));
            let states_pre = states;
            states = states.push((*player, *game_board_data, junk_heaps@));
            assert forall|k: int| 0 <= k < i as int + 1 implies #[trigger] robot_tick_rel(
                robots_mid[k], dumb_robots@[k],
                states[k].0, states[k + 1].0,
                states[k].1, states[k + 1].1,
                states[k].2, states[k + 1].2,
            ) by {
                if k < i as int {
                    assert(states[k] == states_pre[k]);
                    assert(states[k + 1] == states_pre[k + 1]);
                    assert(dumb_robots@[k] == robots_pre[k]);
                    assert(robot_tick_rel(
                        robots_mid[k], robots_pre[k],
                        states_pre[k].0, states_pre[k + 1].0,
                        states_pre[k].1, states_pre[k + 1].1,
                        states_pre[k].2, states_pre[k + 1].2,
                    ));
                } else {
                    assert(states[k] == (p_pre, b_pre, j_pre));
                    assert(states[k + 1] == (*player, *game_board_data, junk_heaps@));
                }
            }
        }
        i = i + 1;
    }

    let ghost p_b = *player;
    let ghost b_b = *game_board_data;
    proof {
        assert(states[states.len() - 1] == (p_b, b_b, junk_heaps@));
        assert(robots_moved(robots_mid, dumb_robots@, states));
    }

    let roll = rand_range(1, 100);
    if roll <= 5 && !item.visible {
        item.visible = true;
    }

    match game_board_data.get(player.pos_x, player.pos_y) {
        Cell::Empty => {},
        _ => {
            player.is_alive = false;
        },
    }
    proof {
        assert(*player == (if b_b.cell(old(player).pos_x as int, old(player).pos_y as int)
                != Cell::Empty {
            Player { is_alive: false, ..p_b }
        } else {
            p_b
        }));
    }

    if player.pos_x == item.pos_x && player.pos_y == item.pos_y && item.visible && !item.picked_up {
        item.picked_up = true;
        match item.kind {
            ItemKind::Invincibility => {
                player.invincible = true;
            },
            ItemKind::Bomb => {
                player.bombs = player.bombs + 1;
            },
        }
    }
}

} // verus!
