use robots::board::Board;
use robots::entities::{DumbRobot, GameState, Item, ItemKind, JunkHeap, Player, RobotKind};
use robots::tick::game_tick;

fn test_player(x: i32, y: i32) -> Player {
    Player {
        username: String::from("tester"),
        is_alive: true,
        score: 0,
        pos_x: x,
        pos_y: y,
        safe_teleports: 2,
        invincible: false,
        bombs: 0,
    }
}

fn hidden_item() -> Item {
    Item {
        pos_x: 1,
        pos_y: 1,
        level: 1,
        kind: ItemKind::Bomb,
        visible: false,
        picked_up: false,
    }
}

fn fresh_state() -> GameState {
    GameState { turn: 0, level: 1, wait_for_end: false, bomb_away: false }
}

fn robot(x: i32, y: i32, kind: RobotKind) -> DumbRobot {
    DumbRobot { pos_x: x, pos_y: y, is_scrap: false, kind }
}

fn run_tick(
    player: &mut Player, robots: &mut Vec<DumbRobot>, junk: &mut Vec<JunkHeap>,
    item: &mut Item, state: &mut GameState,
) {
    let mut board = Board::new();
    game_tick(player, robots, junk, &mut board, item, state);
}

#[test]
fn walker_closes_vertically() {
    let mut player = test_player(5, 10);
    let mut robots = vec![robot(5, 5, RobotKind::Walker)];
    let mut junk = Vec::new();
    let mut item = hidden_item();
    let mut state = fresh_state();
    run_tick(&mut player, &mut robots, &mut junk, &mut item, &mut state);
    assert_eq!(robots[0].pos_x, 5);
    assert_eq!(robots[0].pos_y, 6);
    assert!(!robots[0].is_scrap);
    assert!(player.is_alive);
}

#[test]
fn walker_closes_diagonally() {
    let mut player = test_player(10, 10);
    let mut robots = vec![robot(5, 5, RobotKind::Walker)];
    let mut junk = Vec::new();
    let mut item = hidden_item();
    let mut state = fresh_state();
    run_tick(&mut player, &mut robots, &mut junk, &mut item, &mut state);
    assert_eq!((robots[0].pos_x, robots[0].pos_y), (6, 6));
}

#[test]
fn two_walkers_contest_one_cell() {
    let mut player = test_player(5, 8);
    let mut robots = vec![
        robot(4, 4, RobotKind::Walker),
        robot(6, 4, RobotKind::Walker),
    ];
    let mut junk = Vec::new();
    let mut item = hidden_item();
    let mut state = fresh_state();
    run_tick(&mut player, &mut robots, &mut junk, &mut item, &mut state);
    // Both head for (5, 5); the first wins the cell, the second scraps
    // there, leaving a junk heap and +2 score.
    assert_eq!((robots[0].pos_x, robots[0].pos_y), (5, 5));
    assert!(!robots[0].is_scrap);
    assert_eq!((robots[1].pos_x, robots[1].pos_y), (5, 5));
    assert!(robots[1].is_scrap);
    assert_eq!(junk.len(), 1);
    assert_eq!((junk[0].pos_x, junk[0].pos_y), (5, 5));
    assert_eq!(player.score, 2);
}

#[test]
fn slider_stops_before_junk() {
    let mut player = test_player(8, 20);
    let mut robots = vec![robot(5, 5, RobotKind::Slider)];
    let mut junk = vec![JunkHeap { pos_x: 6, pos_y: 6 }];
    let mut item = hidden_item();
    let mut state = fresh_state();
    run_tick(&mut player, &mut robots, &mut junk, &mut item, &mut state);
    // The best direction is (1, 1); the first probed cell holds junk, so
    // the slider stays one cell short, scraps, and grants +1, not +2.
    assert_eq!((robots[0].pos_x, robots[0].pos_y), (5, 5));
    assert!(robots[0].is_scrap);
    assert_eq!(player.score, 1);
    assert_eq!(junk.len(), 1);
}

#[test]
fn slider_slides_until_aligned() {
    let mut player = test_player(8, 20);
    let mut robots = vec![robot(5, 5, RobotKind::Slider)];
    let mut junk = Vec::new();
    let mut item = hidden_item();
    let mut state = fresh_state();
    run_tick(&mut player, &mut robots, &mut junk, &mut item, &mut state);
    // Direction (1, 1); it stops on reaching the player's column.
    assert_eq!((robots[0].pos_x, robots[0].pos_y), (8, 8));
    assert!(!robots[0].is_scrap);
    assert_eq!(player.score, 0);
}

#[test]
fn leaper_takes_best_knight_move() {
    let mut player = test_player(10, 10);
    let mut robots = vec![robot(5, 5, RobotKind::Leaper)];
    let mut junk = Vec::new();
    let mut item = hidden_item();
    let mut state = fresh_state();
    run_tick(&mut player, &mut robots, &mut junk, &mut item, &mut state);
    // (2, 1) and (1, 2) both reach distance 7; the first in iteration
    // order wins.
    assert_eq!((robots[0].pos_x, robots[0].pos_y), (7, 6));
    assert!(!robots[0].is_scrap);
}

#[test]
fn bomb_scraps_all_twelve_blast_cells() {
    let mut player = test_player(30, 12);
    let offsets: [(i32, i32); 12] = [
        (0, -2), (-1, -1), (1, -1), (0, -1),
        (-2, 0), (-1, 0), (1, 0), (2, 0),
        (-1, 1), (1, 1), (0, 1), (0, 2),
    ];
    let mut robots: Vec<DumbRobot> = offsets
        .iter()
        .map(|&(dx, dy)| robot(30 + dx, 12 + dy, RobotKind::Walker))
        .collect();
    let mut junk = Vec::new();
    let mut item = hidden_item();
    let mut state = fresh_state();
    state.bomb_away = true;
    run_tick(&mut player, &mut robots, &mut junk, &mut item, &mut state);
    for r in &robots {
        assert!(r.is_scrap);
    }
    assert_eq!(player.score, 12);
    assert_eq!(junk.len(), 12);
    assert!(!state.bomb_away);
    assert!(player.is_alive);
}

#[test]
fn bomb_spares_robots_outside_the_blast() {
    let mut player = test_player(30, 12);
    let mut robots = vec![robot(30, 9, RobotKind::Walker)];
    let mut junk = Vec::new();
    let mut item = hidden_item();
    let mut state = fresh_state();
    state.bomb_away = true;
    run_tick(&mut player, &mut robots, &mut junk, &mut item, &mut state);
    // (30, 9) is three cells above the player, outside the pattern; the
    // robot survives the bomb and then walks one cell closer.
    assert!(!robots[0].is_scrap);
    assert_eq!((robots[0].pos_x, robots[0].pos_y), (30, 10));
    assert_eq!(player.score, 0);
}

#[test]
fn invincible_collision_spares_player_once() {
    let mut player = test_player(5, 10);
    player.invincible = true;
    let mut robots = vec![robot(5, 9, RobotKind::Walker)];
    let mut junk = Vec::new();
    let mut item = hidden_item();
    let mut state = fresh_state();
    run_tick(&mut player, &mut robots, &mut junk, &mut item, &mut state);
    assert!(player.is_alive);
    assert!(!player.invincible);
    assert_eq!(player.score, 1);
    assert_eq!(junk.len(), 1);
    assert_eq!((junk[0].pos_x, junk[0].pos_y), (5, 9));
    assert_eq!((robots[0].pos_x, robots[0].pos_y), (5, 9));
    assert!(!robots[0].is_scrap);
}

#[test]
fn second_collision_in_same_tick_kills() {
    let mut player = test_player(5, 10);
    player.invincible = true;
    let mut robots = vec![
        robot(5, 9, RobotKind::Walker),
        robot(5, 11, RobotKind::Walker),
    ];
    let mut junk = Vec::new();
    let mut item = hidden_item();
    let mut state = fresh_state();
    run_tick(&mut player, &mut robots, &mut junk, &mut item, &mut state);
    // The first walker consumes the invincibility; the second finds a
    // mortal player.
    assert!(!player.invincible);
    assert!(!player.is_alive);
    assert_eq!(player.score, 1);
}

#[test]
fn walker_kills_mortal_player() {
    let mut player = test_player(5, 10);
    let mut robots = vec![robot(5, 9, RobotKind::Walker)];
    let mut junk = Vec::new();
    let mut item = hidden_item();
    let mut state = fresh_state();
    run_tick(&mut player, &mut robots, &mut junk, &mut item, &mut state);
    assert!(!player.is_alive);
}

#[test]
fn robot_standing_on_junk_scraps() {
    let mut player = test_player(30, 12);
    let mut robots = vec![robot(5, 5, RobotKind::Walker)];
    let mut junk = vec![JunkHeap { pos_x: 5, pos_y: 5 }];
    let mut item = hidden_item();
    let mut state = fresh_state();
    run_tick(&mut player, &mut robots, &mut junk, &mut item, &mut state);
    assert!(robots[0].is_scrap);
    assert_eq!((robots[0].pos_x, robots[0].pos_y), (5, 5));
    assert_eq!(player.score, 1);
}

#[test]
fn tick_keeps_surviving_robots_in_bounds() {
    let mut player = test_player(1, 1);
    let mut robots = vec![
        robot(60, 24, RobotKind::Walker),
        robot(1, 24, RobotKind::Leaper),
        robot(60, 1, RobotKind::Slider),
    ];
    let mut junk = Vec::new();
    let mut item = hidden_item();
    let mut state = fresh_state();
    for _ in 0..30 {
        if !player.is_alive {
            break;
        }
        run_tick(&mut player, &mut robots, &mut junk, &mut item, &mut state);
        for r in &robots {
            assert!(1 <= r.pos_x && r.pos_x <= 60);
            assert!(1 <= r.pos_y && r.pos_y <= 24);
        }
    }
}

#[test]
fn quiet_tick_changes_nothing_but_visibility() {
    let mut player = test_player(7, 7);
    let mut robots = vec![DumbRobot { pos_x: 3, pos_y: 3, is_scrap: true, kind: RobotKind::Walker }];
    let mut junk = vec![JunkHeap { pos_x: 4, pos_y: 4 }];
    let mut item = hidden_item();
    let mut state = fresh_state();
    run_tick(&mut player, &mut robots, &mut junk, &mut item, &mut state);
    assert!(player.is_alive);
    assert_eq!(player.score, 0);
    assert_eq!(junk.len(), 1);
    assert!(robots[0].is_scrap);
    assert_eq!((robots[0].pos_x, robots[0].pos_y), (3, 3));
    assert!(!item.picked_up);
}

#[test]
fn visible_item_on_player_cell_is_picked_up() {
    let mut player = test_player(7, 7);
    let mut robots = Vec::new();
    let mut junk = Vec::new();
    let mut item = Item {
        pos_x: 7,
        pos_y: 7,
        level: 1,
        kind: ItemKind::Bomb,
        visible: true,
        picked_up: false,
    };
    let mut state = fresh_state();
    run_tick(&mut player, &mut robots, &mut junk, &mut item, &mut state);
    assert!(item.picked_up);
    assert_eq!(player.bombs, 1);
    assert!(player.is_alive);
}

#[test]
fn invincibility_item_grants_invincibility() {
    let mut player = test_player(7, 7);
    let mut robots = Vec::new();
    let mut junk = Vec::new();
    let mut item = Item {
        pos_x: 7,
        pos_y: 7,
        level: 1,
        kind: ItemKind::Invincibility,
        visible: true,
        picked_up: false,
    };
    let mut state = fresh_state();
    run_tick(&mut player, &mut robots, &mut junk, &mut item, &mut state);
    assert!(item.picked_up);
    assert!(player.invincible);
    assert_eq!(player.bombs, 0);
}

#[test]
fn player_standing_on_junk_dies() {
    let mut player = test_player(7, 7);
    let mut robots = Vec::new();
    let mut junk = vec![JunkHeap { pos_x: 7, pos_y: 7 }];
    let mut item = hidden_item();
    let mut state = fresh_state();
    run_tick(&mut player, &mut robots, &mut junk, &mut item, &mut state);
    assert!(!player.is_alive);
}

#[test]
fn slider_lands_on_mortal_player() {
    let mut player = test_player(10, 10);
    let mut robots = vec![robot(9, 10, RobotKind::Slider)];
    let mut junk = Vec::new();
    let mut item = hidden_item();
    let mut state = fresh_state();
    run_tick(&mut player, &mut robots, &mut junk, &mut item, &mut state);
    assert!(!player.is_alive);
    assert_eq!((robots[0].pos_x, robots[0].pos_y), (10, 10));
}

#[test]
fn leaper_bounces_off_invincible_player() {
    let mut player = test_player(10, 9);
    player.invincible = true;
    let mut robots = vec![robot(8, 8, RobotKind::Leaper)];
    let mut junk = Vec::new();
    let mut item = hidden_item();
    let mut state = fresh_state();
    run_tick(&mut player, &mut robots, &mut junk, &mut item, &mut state);
    // The jump (2, 1) lands exactly on the player; the leaper is pushed
    // back and the heap falls within one cell of the collision.
    assert!(player.is_alive);
    assert!(!player.invincible);
    assert_eq!(player.score, 1);
    assert_eq!((robots[0].pos_x, robots[0].pos_y), (8, 8));
    assert!(!robots[0].is_scrap);
    assert_eq!(junk.len(), 1);
    assert!((junk[0].pos_x - 10).abs() <= 1);
    assert!((junk[0].pos_y - 9).abs() <= 1);
}
