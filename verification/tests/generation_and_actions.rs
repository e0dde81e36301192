use robots::actions::{alive_robots, any_robots_left, apply_player_command, move_player,
    teleport_player, Command, Dir};
use robots::board::{Board, Cell};
use robots::entities::{DumbRobot, GameState, Item, ItemKind, JunkHeap, Player, RobotKind};
use robots::level::{generate_level, no_of_dumb_robots, no_of_killer_robots, no_of_super_robots};
use robots::game::{advance_level, next_loop_step, LoopStep};
use robots::movement::eucledian_distance;

fn test_player(x: i32, y: i32) -> Player {
    Player {
        username: String::from("tester"),
        is_alive: true,
        score: 0,
        pos_x: x,
        pos_y: y,
        safe_teleports: 2,
        invincible: false,
        bombs: 0,
    }
}

fn blank_item() -> Item {
    Item {
        pos_x: 1,
        pos_y: 1,
        level: 0,
        kind: ItemKind::Bomb,
        visible: false,
        picked_up: false,
    }
}

fn generate(level: i32, player: &mut Player) -> (Vec<DumbRobot>, Vec<JunkHeap>, Item, Board) {
    let state = GameState { turn: 0, level, wait_for_end: false, bomb_away: false };
    let mut board = Board::new();
    let mut robots = Vec::new();
    let mut junk = vec![JunkHeap { pos_x: 9, pos_y: 9 }];
    let mut item = blank_item();
    generate_level(&state, &mut board, &mut robots, &mut junk, player, &mut item);
    (robots, junk, item, board)
}

#[test]
fn robot_count_formulas() {
    assert_eq!(no_of_dumb_robots(1), 20);
    assert_eq!(no_of_dumb_robots(2), 20);
    assert_eq!(no_of_dumb_robots(5), 35);
    assert_eq!(no_of_super_robots(4), 0);
    assert_eq!(no_of_super_robots(5), 3);
    assert_eq!(no_of_super_robots(10), 13);
    assert_eq!(no_of_killer_robots(8), 0);
    assert_eq!(no_of_killer_robots(9), 0);
    assert_eq!(no_of_killer_robots(10), 2);
    assert_eq!(no_of_killer_robots(12), 6);
}

#[test]
fn generated_level_matches_formulas_across_levels() {
    for level in [1, 2, 5, 9, 10, 15] {
        let mut player = test_player(1, 1);
        let (robots, junk, _item, _board) = generate(level, &mut player);
        let walkers = robots.iter().filter(|r| r.kind == RobotKind::Walker).count() as i32;
        let leapers = robots.iter().filter(|r| r.kind == RobotKind::Leaper).count() as i32;
        let sliders = robots.iter().filter(|r| r.kind == RobotKind::Slider).count() as i32;
        assert_eq!(walkers, no_of_dumb_robots(level));
        assert_eq!(leapers, no_of_super_robots(level));
        assert_eq!(sliders, no_of_killer_robots(level));
        assert_eq!(junk.len(), 0);
        assert!(robots.iter().all(|r| !r.is_scrap));
    }
}

#[test]
fn generated_entities_are_in_bounds_and_distinct() {
    let mut player = test_player(1, 1);
    let (robots, _junk, item, _board) = generate(10, &mut player);
    let mut cells: Vec<(i32, i32)> = robots.iter().map(|r| (r.pos_x, r.pos_y)).collect();
    cells.push((item.pos_x, item.pos_y));
    cells.push((player.pos_x, player.pos_y));
    for &(x, y) in &cells {
        assert!(1 <= x && x <= 60);
        assert!(1 <= y && y <= 24);
    }
    for a in 0..cells.len() {
        for b in (a + 1)..cells.len() {
            assert_ne!(cells[a], cells[b]);
        }
    }
}

#[test]
fn generation_resets_player_and_item() {
    let mut player = test_player(1, 1);
    player.invincible = true;
    player.score = 17;
    let (_robots, _junk, item, _board) = generate(3, &mut player);
    assert_eq!(player.safe_teleports, 3);
    assert!(!player.invincible);
    assert_eq!(player.score, 17);
    assert!(player.is_alive);
    assert_eq!(item.level, 3);
    assert!(!item.visible);
    assert!(!item.picked_up);
}

#[test]
fn board_caches_robot_placements() {
    let mut player = test_player(1, 1);
    let (robots, _junk, item, board) = generate(1, &mut player);
    for r in &robots {
        assert_eq!(board.get(r.pos_x, r.pos_y), Cell::Robot);
    }
    assert_eq!(board.get(item.pos_x, item.pos_y), Cell::Empty);
    assert_eq!(board.get(player.pos_x, player.pos_y), Cell::Empty);
}

#[test]
fn move_player_takes_empty_cell() {
    let mut player = test_player(5, 5);
    let board = Board::new();
    assert!(move_player(&mut player, 1, 0, &board));
    assert_eq!((player.pos_x, player.pos_y), (6, 5));
}

#[test]
fn move_player_is_clamped_at_the_wall() {
    let mut player = test_player(1, 1);
    let board = Board::new();
    assert!(move_player(&mut player, -1, -1, &board));
    assert_eq!((player.pos_x, player.pos_y), (1, 1));
}

#[test]
fn move_player_refuses_occupied_cell() {
    let mut player = test_player(5, 5);
    let mut board = Board::new();
    let junk = vec![JunkHeap { pos_x: 6, pos_y: 5 }];
    board.rebuild(&junk);
    assert!(!move_player(&mut player, 1, 0, &board));
    assert_eq!((player.pos_x, player.pos_y), (5, 5));
}

#[test]
fn safe_teleport_spends_a_charge_and_avoids_robots() {
    for _ in 0..20 {
        let mut player = test_player(5, 5);
        let robots = vec![DumbRobot { pos_x: 30, pos_y: 12, is_scrap: false, kind: RobotKind::Walker }];
        teleport_player(true, &mut player, &robots);
        assert_eq!(player.safe_teleports, 1);
        assert!(1 <= player.pos_x && player.pos_x <= 60);
        assert!(1 <= player.pos_y && player.pos_y <= 24);
        assert!((player.pos_x - 30).abs() >= 2 || (player.pos_y - 12).abs() >= 2);
    }
}

#[test]
fn teleport_without_charges_falls_back_to_unsafe() {
    let mut player = test_player(5, 5);
    player.safe_teleports = 0;
    let robots = Vec::new();
    teleport_player(true, &mut player, &robots);
    assert_eq!(player.safe_teleports, 0);
    assert!(1 <= player.pos_x && player.pos_x <= 60);
    assert!(1 <= player.pos_y && player.pos_y <= 24);
}

#[test]
fn unsafe_teleport_keeps_charges() {
    let mut player = test_player(5, 5);
    let robots = Vec::new();
    teleport_player(false, &mut player, &robots);
    assert_eq!(player.safe_teleports, 2);
    assert!(1 <= player.pos_x && player.pos_x <= 60);
    assert!(1 <= player.pos_y && player.pos_y <= 24);
}

#[test]
fn eucledian_distance_is_manhattan() {
    let player = test_player(5, 10);
    let r = DumbRobot { pos_x: 9, pos_y: 4, is_scrap: false, kind: RobotKind::Walker };
    assert_eq!(eucledian_distance(&player, &r), 10);
    let r2 = DumbRobot { pos_x: 5, pos_y: 10, is_scrap: false, kind: RobotKind::Walker };
    assert_eq!(eucledian_distance(&player, &r2), 0);
}

#[test]
fn alive_robot_counting() {
    let robots = vec![
        DumbRobot { pos_x: 1, pos_y: 1, is_scrap: false, kind: RobotKind::Walker },
        DumbRobot { pos_x: 2, pos_y: 1, is_scrap: true, kind: RobotKind::Walker },
        DumbRobot { pos_x: 3, pos_y: 1, is_scrap: false, kind: RobotKind::Slider },
    ];
    assert_eq!(alive_robots(&robots), 2);
    assert!(any_robots_left(&robots));
    let all_scrap: Vec<DumbRobot> = robots
        .iter()
        .map(|r| DumbRobot { is_scrap: true, ..*r })
        .collect();
    assert_eq!(alive_robots(&all_scrap), 0);
    assert!(!any_robots_left(&all_scrap));
    assert!(!any_robots_left(&Vec::new()));
}

#[test]
fn step_command_moves_and_counts_the_turn() {
    let mut player = test_player(5, 5);
    let robots = Vec::new();
    let board = Board::new();
    let mut state = GameState { turn: 0, level: 1, wait_for_end: false, bomb_away: false };
    let legal = apply_player_command(Command::Step(Dir::Right), &mut player, &robots, &board, &mut state);
    assert!(legal);
    assert_eq!((player.pos_x, player.pos_y), (6, 5));
    assert_eq!(state.turn, 1);
}

#[test]
fn bomb_command_spends_a_charge() {
    let mut player = test_player(5, 5);
    player.bombs = 2;
    let robots = Vec::new();
    let board = Board::new();
    let mut state = GameState { turn: 0, level: 1, wait_for_end: false, bomb_away: false };
    let legal = apply_player_command(Command::Bomb, &mut player, &robots, &board, &mut state);
    assert!(legal);
    assert!(state.bomb_away);
    assert_eq!(player.bombs, 1);
}

#[test]
fn bomb_command_without_charges_degrades_silently() {
    let mut player = test_player(5, 5);
    let robots = Vec::new();
    let board = Board::new();
    let mut state = GameState { turn: 0, level: 1, wait_for_end: false, bomb_away: false };
    let legal = apply_player_command(Command::Bomb, &mut player, &robots, &board, &mut state);
    assert!(legal);
    assert!(!state.bomb_away);
    assert_eq!(player.bombs, 0);
    assert_eq!(state.turn, 1);
}

#[test]
fn wait_for_end_command_arms_the_flag() {
    let mut player = test_player(5, 5);
    let robots = Vec::new();
    let board = Board::new();
    let mut state = GameState { turn: 3, level: 1, wait_for_end: false, bomb_away: false };
    assert!(apply_player_command(Command::WaitForEnd, &mut player, &robots, &board, &mut state));
    assert!(state.wait_for_end);
    assert_eq!(state.turn, 4);
}

#[test]
fn quit_command_is_not_a_legal_move() {
    let mut player = test_player(5, 5);
    let robots = Vec::new();
    let board = Board::new();
    let mut state = GameState { turn: 0, level: 1, wait_for_end: false, bomb_away: false };
    assert!(!apply_player_command(Command::Quit, &mut player, &robots, &board, &mut state));
    assert!(!player.is_alive);
}

#[test]
fn rest_command_changes_nothing_but_the_turn() {
    let mut player = test_player(5, 5);
    let robots = Vec::new();
    let board = Board::new();
    let mut state = GameState { turn: 0, level: 1, wait_for_end: false, bomb_away: false };
    assert!(apply_player_command(Command::Rest, &mut player, &robots, &board, &mut state));
    assert_eq!((player.pos_x, player.pos_y), (5, 5));
    assert_eq!(state.turn, 1);
    assert!(!state.wait_for_end && !state.bomb_away);
}

#[test]
fn loop_step_decisions() {
    let live = vec![DumbRobot { pos_x: 1, pos_y: 1, is_scrap: false, kind: RobotKind::Walker }];
    let scrap = vec![DumbRobot { pos_x: 1, pos_y: 1, is_scrap: true, kind: RobotKind::Walker }];
    let alive = test_player(5, 5);
    let mut dead = test_player(5, 5);
    dead.is_alive = false;
    assert_eq!(next_loop_step(&alive, &live), LoopStep::ContinueLevel);
    assert_eq!(next_loop_step(&alive, &scrap), LoopStep::LevelCleared);
    assert_eq!(next_loop_step(&dead, &live), LoopStep::PlayerDead);
    assert_eq!(next_loop_step(&dead, &scrap), LoopStep::PlayerDead);
}

#[test]
fn advance_level_clears_wait_flag() {
    let mut state = GameState { turn: 9, level: 4, wait_for_end: true, bomb_away: false };
    advance_level(&mut state);
    assert_eq!(state.level, 5);
    assert!(!state.wait_for_end);
    assert_eq!(state.turn, 9);
}

#[test]
fn safe_teleport_command_uses_a_charge() {
    let mut player = test_player(5, 5);
    let robots = Vec::new();
    let board = Board::new();
    let mut state = GameState { turn: 0, level: 1, wait_for_end: false, bomb_away: false };
    assert!(apply_player_command(Command::SafeTeleport, &mut player, &robots, &board, &mut state));
    assert_eq!(player.safe_teleports, 1);
    assert!(1 <= player.pos_x && player.pos_x <= 60);
    assert!(1 <= player.pos_y && player.pos_y <= 24);
}
