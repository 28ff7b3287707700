use containers::game::Game;
use containers::grid::{stack_has, Container, Rgb};
use containers::model::{Spawn, TickInput};
use containers::player::Movement;
use std::time::{Duration, Instant};

const RED: Rgb = Rgb { r: 200, g: 10, b: 10 };
const BLUE: Rgb = Rgb { r: 10, g: 10, b: 200 };

fn quiet() -> TickInput {
    TickInput {
        fall_due: false,
        spawn_due: false,
        draw: None,
        walk_due: false,
        jump_due: false,
        sink_due: false,
    }
}

fn spawn(column: u16, color: Rgb) -> TickInput {
    TickInput { spawn_due: true, draw: Some(Spawn { column, color }), ..quiet() }
}

fn fall() -> TickInput {
    TickInput { fall_due: true, ..quiet() }
}

fn walk() -> TickInput {
    TickInput { walk_due: true, ..quiet() }
}

fn sink() -> TickInput {
    TickInput { sink_due: true, ..quiet() }
}

/// Spawns a container in `column` and lets it fall until it has landed.
fn land_one(game: &mut Game, column: u16, color: Rgb) {
    let before = game.points();
    game.step(spawn(column, color));
    let mut steps = 0;
    while game.points() == before {
        game.step(fall());
        steps += 1;
        assert!(steps <= 3 * 14 + 1);
    }
}

fn cells(game: &Game) -> Vec<((u16, u16), u16)> {
    game.containers().iter().map(|c| (c.pos, c.extra_fall_height)).collect()
}

#[test]
fn new_game_is_empty_and_running() {
    let game = Game::new();
    assert!(game.containers().is_empty());
    assert_eq!(game.points(), 0);
    assert!(!game.is_over());
    assert!(!game.is_paused());
    assert_eq!(game.player().pos(), (4, 14));
    assert_eq!(game.player().extra(), (2, 0));
    assert_eq!(game.player().movement(), Movement::Idle);
    assert!(!game.player().is_jumping());
    assert!(!game.player().is_falling());
}

#[test]
fn quiet_tick_changes_nothing() {
    let mut game = Game::new();
    game.step(quiet());
    assert!(game.containers().is_empty());
    assert_eq!(game.points(), 0);
    assert!(!game.is_over());
    assert_eq!((game.player().pos(), game.player().extra()), ((4, 14), (2, 0)));
}

#[test]
fn spawn_puts_the_container_at_the_top_of_the_drawn_column() {
    let mut game = Game::new();
    game.step(spawn(7, RED));
    assert_eq!(
        game.containers().as_slice(),
        &[Container { pos: (7, 0), extra_fall_height: 0, color: RED }]
    );
    assert!(game.has_container_at(7, 0));
    assert!(!game.has_container_at(0, 7));
    assert!(!game.has_container_at(7, 1));
    assert_eq!(game.points(), 0);
}

#[test]
fn spawn_needs_the_timer_and_a_draw() {
    let mut game = Game::new();
    game.step(TickInput { draw: Some(Spawn { column: 7, color: RED }), ..quiet() });
    assert!(game.containers().is_empty());
    game.step(TickInput { spawn_due: true, ..quiet() });
    assert!(game.containers().is_empty());
}

#[test]
fn spawn_outside_the_grid_is_refused() {
    let mut game = Game::new();
    game.step(spawn(10, RED));
    assert!(game.containers().is_empty());
    game.step(spawn(u16::MAX, RED));
    assert!(game.containers().is_empty());
    game.step(spawn(9, RED));
    assert_eq!(cells(&game), vec![((9, 0), 0)]);
}

#[test]
fn spawn_waits_while_a_container_is_in_flight() {
    let mut game = Game::new();
    game.step(spawn(2, RED));
    game.step(spawn(3, BLUE));
    assert_eq!(cells(&game), vec![((2, 0), 0)]);
    game.step(TickInput { fall_due: true, ..spawn(3, BLUE) });
    assert_eq!(cells(&game), vec![((2, 0), 1)]);
}

#[test]
fn fall_needs_the_timer() {
    let mut game = Game::new();
    game.step(spawn(2, RED));
    game.step(quiet());
    game.step(walk());
    game.step(sink());
    assert_eq!(cells(&game), vec![((2, 0), 0)]);
}

#[test]
fn fall_goes_through_three_sub_steps_a_row() {
    let mut game = Game::new();
    game.step(spawn(2, RED));
    let mut seen = vec![];
    for _ in 0..7 {
        game.step(fall());
        seen.push(cells(&game)[0]);
    }
    assert_eq!(
        seen,
        vec![
            ((2, 0), 1),
            ((2, 0), 2),
            ((2, 1), 0),
            ((2, 1), 1),
            ((2, 1), 2),
            ((2, 2), 0),
            ((2, 2), 1)
        ]
    );
    assert_eq!(game.containers()[0].color, RED);
}

#[test]
fn landing_on_the_ground_scores_one_point() {
    let mut game = Game::new();
    game.step(spawn(2, RED));
    for _ in 0..(3 * 14) {
        game.step(fall());
        assert_eq!(game.points(), 0);
    }
    assert_eq!(cells(&game), vec![((2, 14), 0)]);
    game.step(fall());
    assert_eq!(game.points(), 1);
    assert_eq!(cells(&game), vec![((2, 14), 0)]);
    game.step(fall());
    game.step(fall());
    assert_eq!(game.points(), 1);
    assert_eq!(cells(&game), vec![((2, 14), 0)]);
}

#[test]
fn landing_and_spawning_can_share_a_tick() {
    let mut game = Game::new();
    game.step(spawn(2, RED));
    for _ in 0..(3 * 14) {
        game.step(fall());
    }
    game.step(TickInput { fall_due: true, ..spawn(6, BLUE) });
    assert_eq!(game.points(), 1);
    assert_eq!(cells(&game), vec![((2, 14), 0), ((6, 0), 0)]);
}

#[test]
fn containers_stack_in_a_column() {
    let mut game = Game::new();
    land_one(&mut game, 8, RED);
    land_one(&mut game, 8, BLUE);
    land_one(&mut game, 8, RED);
    assert_eq!(cells(&game), vec![((8, 14), 0), ((8, 13), 0), ((8, 12), 0)]);
    assert_eq!(game.points(), 3);
    assert!(game.has_container_at(8, 12));
    assert!(!game.has_container_at(8, 11));
}

#[test]
fn full_column_lets_no_container_in() {
    let mut game = Game::new();
    for row in 0..15u16 {
        land_one(&mut game, 0, RED);
        assert_eq!(game.containers().last().unwrap().pos, (0, 14 - row));
    }
    assert_eq!(game.points(), 15);
    assert!(game.has_container_at(0, 0));
    game.step(spawn(0, BLUE));
    assert_eq!(game.containers().len(), 15);
    game.step(spawn(1, BLUE));
    assert_eq!(game.containers().len(), 16);
    assert_eq!(game.containers()[15].pos, (1, 0));
}

#[test]
fn container_that_spawns_onto_a_stack_lands_where_it_is() {
    let mut game = Game::new();
    for _ in 0..14 {
        land_one(&mut game, 0, RED);
    }
    assert_eq!(game.containers().last().unwrap().pos, (0, 1));
    game.step(spawn(0, BLUE));
    assert_eq!(game.containers().last().unwrap().pos, (0, 0));
    game.step(fall());
    assert_eq!(game.points(), 15);
    assert_eq!(game.containers().last().unwrap().pos, (0, 0));
    assert_eq!(game.containers().last().unwrap().extra_fall_height, 0);
}

#[test]
fn field_holds_one_container_for_each_cell_and_no_more() {
    let mut game = Game::new();
    for column in (0..10u16).filter(|c| *c != 4) {
        for _ in 0..15 {
            land_one(&mut game, column, RED);
        }
    }
    assert_eq!(game.containers().len(), 135);
    assert_eq!(game.points(), 135);
    assert!(!game.is_over());
    for column in 0..10u16 {
        let before = game.containers().len();
        game.step(spawn(column, BLUE));
        if column == 4 {
            assert_eq!(game.containers().len(), before + 1);
        } else {
            assert_eq!(game.containers().len(), before);
        }
    }
}

#[test]
fn has_container_at_finds_every_container() {
    let mut game = Game::new();
    land_one(&mut game, 0, RED);
    land_one(&mut game, 9, RED);
    land_one(&mut game, 9, RED);
    game.step(spawn(5, BLUE));
    for x in 0..12u16 {
        for y in 0..17u16 {
            let there = (x, y) == (0, 14) || (x, y) == (9, 14) || (x, y) == (9, 13) || (x, y) == (5, 0);
            assert_eq!(game.has_container_at(x, y), there);
            assert_eq!(stack_has(game.containers(), x, y), there);
        }
    }
    assert!(!game.has_container_at(u16::MAX, u16::MAX));
}

#[test]
fn is_on_ground_looks_at_the_row_and_the_cell_below() {
    let mut game = Game::new();
    land_one(&mut game, 3, RED);
    let at = |x: u16, y: u16| Container { pos: (x, y), extra_fall_height: 0, color: BLUE };
    assert!(at(3, 13).is_on_ground(&game));
    assert!(!at(3, 12).is_on_ground(&game));
    assert!(!at(2, 13).is_on_ground(&game));
    assert!(at(3, 14).is_on_ground(&game));
    assert!(at(7, 14).is_on_ground(&game));
    assert!(at(7, 15).is_on_ground(&game));
    assert!(at(7, u16::MAX).is_on_ground(&game));
    assert!(!at(7, 13).is_on_ground(&game));
    assert!(game.containers()[0].is_on_ground(&game));
}

#[test]
fn pause_is_toggled_by_the_host_and_ignored_by_the_tick() {
    let mut game = Game::new();
    game.toggle_pause();
    assert!(game.is_paused());
    game.step(spawn(2, RED));
    assert_eq!(cells(&game), vec![((2, 0), 0)]);
    assert!(game.is_paused());
    game.toggle_pause();
    assert!(!game.is_paused());
}

#[test]
fn blocked_move_is_taken_back() {
    let mut game = Game::new();
    land_one(&mut game, 5, RED);
    game.steer(Movement::Right, true);
    game.step(walk());
    game.steer(Movement::Right, true);
    game.step(walk());
    assert_eq!((game.player().pos(), game.player().extra()), ((4, 14), (4, 0)));
    for _ in 0..5 {
        game.steer(Movement::Right, true);
        assert_eq!(game.player().movement(), Movement::Right);
        game.step(walk());
        assert_eq!((game.player().pos(), game.player().extra()), ((4, 14), (4, 0)));
        assert_eq!(game.player().movement(), Movement::Idle);
        assert!(!game.is_over());
    }
    game.steer(Movement::Left, true);
    game.step(walk());
    assert_eq!((game.player().pos(), game.player().extra()), ((4, 14), (3, 0)));
}

#[test]
fn jump_under_a_falling_container_is_taken_back() {
    let mut game = Game::new();
    game.step(spawn(4, RED));
    for _ in 0..(3 * 13) {
        game.step(fall());
    }
    assert_eq!(cells(&game), vec![((4, 13), 0)]);
    game.launch(true);
    game.step(TickInput { jump_due: true, ..quiet() });
    assert_eq!((game.player().pos(), game.player().extra()), ((4, 14), (2, 0)));
    assert!(game.player().is_jumping());
    assert!(!game.is_over());
}

#[test]
fn container_that_reaches_the_player_ends_the_game() {
    let mut game = Game::new();
    game.step(spawn(4, RED));
    for _ in 0..(3 * 14) {
        assert!(!game.is_over());
        game.step(fall());
    }
    assert_eq!(cells(&game), vec![((4, 14), 0)]);
    assert!(!game.is_over());
    game.step(fall());
    assert!(game.is_over());
    assert_eq!(game.points(), 0);
}

#[test]
fn wide_footprint_reaches_into_the_next_column() {
    let mut game = Game::new();
    for _ in 0..3 {
        game.steer(Movement::Right, true);
        game.step(walk());
    }
    assert_eq!((game.player().pos(), game.player().extra()), ((4, 14), (5, 0)));
    game.step(spawn(5, RED));
    for _ in 0..(3 * 14) {
        game.step(fall());
    }
    assert!(!game.is_over());
    game.step(quiet());
    assert!(game.is_over());
}

#[test]
fn narrow_footprint_leaves_the_next_column_alone() {
    let mut game = Game::new();
    for _ in 0..2 {
        game.steer(Movement::Right, true);
        game.step(walk());
    }
    assert_eq!((game.player().pos(), game.player().extra()), ((4, 14), (4, 0)));
    land_one(&mut game, 5, RED);
    game.step(quiet());
    assert!(!game.is_over());
    assert_eq!(game.points(), 1);
}

#[test]
fn game_over_freezes_everything() {
    let mut game = Game::new();
    land_one(&mut game, 1, BLUE);
    game.step(spawn(4, RED));
    for _ in 0..(3 * 14) {
        game.step(fall());
    }
    game.steer(Movement::Left, true);
    game.launch(true);
    game.step(quiet());
    assert!(game.is_over());
    let frozen = cells(&game);
    let place = (game.player().pos(), game.player().extra());
    let all = TickInput {
        fall_due: true,
        spawn_due: true,
        draw: Some(Spawn { column: 8, color: BLUE }),
        walk_due: true,
        jump_due: true,
        sink_due: true,
    };
    for _ in 0..50 {
        game.step(all);
        game.update();
        assert!(game.is_over());
        assert_eq!(cells(&game), frozen);
        assert_eq!(game.points(), 1);
        assert_eq!((game.player().pos(), game.player().extra()), place);
        assert_eq!(game.player().movement(), Movement::Left);
        assert!(game.player().is_jumping());
    }
}

#[test]
fn player_falls_in_three_sub_steps_a_row() {
    let mut game = Game::new();
    game.launch(true);
    for _ in 0..3 {
        game.step(TickInput { jump_due: true, ..quiet() });
    }
    assert_eq!((game.player().pos(), game.player().extra()), ((4, 12), (2, 3)));
    assert!(!game.player().is_falling());
    let mut seen = vec![];
    for _ in 0..8 {
        game.step(sink());
        seen.push((game.player().pos().1, game.player().extra().1, game.player().is_falling()));
    }
    assert_eq!(
        seen,
        vec![
            (13, 0, true),
            (13, 1, true),
            (13, 2, true),
            (14, 0, true),
            (14, 0, false),
            (14, 0, false),
            (14, 0, false),
            (14, 0, false)
        ]
    );
}

#[test]
fn player_does_not_fall_while_it_jumps_or_before_the_timer() {
    let mut game = Game::new();
    game.launch(true);
    game.step(TickInput { jump_due: true, sink_due: true, ..quiet() });
    assert_eq!((game.player().pos(), game.player().extra()), ((4, 13), (2, 1)));
    game.step(sink());
    assert_eq!((game.player().pos(), game.player().extra()), ((4, 13), (2, 1)));
    assert!(!game.player().is_falling());
    game.step(TickInput { jump_due: true, ..quiet() });
    game.step(TickInput { jump_due: true, ..quiet() });
    assert!(!game.player().is_jumping());
    game.step(quiet());
    assert_eq!((game.player().pos(), game.player().extra()), ((4, 12), (2, 3)));
    assert!(!game.player().is_falling());
}

#[test]
fn jump_stops_at_the_top_row() {
    let mut game = Game::new();
    let mut rows = vec![];
    for _ in 0..15 {
        game.launch(true);
        assert!(game.player().is_jumping());
        for _ in 0..3 {
            game.step(TickInput { jump_due: true, ..quiet() });
        }
        assert!(!game.player().is_jumping());
        assert!(!game.player().is_falling());
        rows.push(game.player().pos().1);
    }
    assert_eq!(rows, vec![12, 11, 10, 9, 8, 7, 6, 5, 4, 3, 2, 1, 0, 0, 0]);
    assert_eq!(game.player().pos(), (4, 0));
    assert!(!game.is_over());
    assert_eq!(game.player().extra(), (2, 3));
}

#[test]
fn first_request_of_a_game_is_taken_at_once() {
    let mut left = Game::new();
    left.move_left();
    assert_eq!(left.player().movement(), Movement::Left);
    let mut right = Game::new();
    right.move_right();
    assert_eq!(right.player().movement(), Movement::Right);
    right.step(walk());
    assert_eq!((right.player().pos(), right.player().extra()), ((4, 14), (3, 0)));
}

#[test]
fn requests_before_their_timer_are_dropped() {
    let mut game = Game::new();
    game.steer(Movement::Left, false);
    assert_eq!(game.player().movement(), Movement::Idle);
    game.launch(false);
    assert!(!game.player().is_jumping());
}

#[test]
fn jump_by_the_clock_goes_up_and_comes_down() {
    let begun = Instant::now();
    let mut game = Game::new();
    while !game.player().is_jumping() {
        assert!(begun.elapsed() < Duration::from_secs(2));
        game.jump();
    }
    assert!(begun.elapsed() >= Duration::from_millis(100));
    let mut seen = vec![(game.player().pos().1, game.player().extra().1)];
    while seen.len() < 8 {
        assert!(begun.elapsed() < Duration::from_millis(2_500));
        game.update();
        let now = (game.player().pos().1, game.player().extra().1);
        if *seen.last().unwrap() != now {
            seen.push(now);
        }
    }
    assert_eq!(
        seen,
        vec![(14, 0), (13, 1), (12, 2), (12, 3), (13, 0), (13, 1), (13, 2), (14, 0)]
    );
    assert!(begun.elapsed() >= Duration::from_millis(500));
    for _ in 0..10 {
        game.update();
    }
    assert_eq!((game.player().pos(), game.player().extra()), ((4, 14), (2, 0)));
    assert!(!game.player().is_falling());
    assert!(!game.player().is_jumping());
    assert!(game.containers().is_empty());
}

#[test]
fn walk_by_the_clock_takes_one_sub_step_for_each_request() {
    let begun = Instant::now();
    let mut game = Game::new();
    let mut taken = 0;
    while taken < 3 {
        assert!(begun.elapsed() < Duration::from_millis(2_500));
        game.move_right();
        if game.player().movement() == Movement::Right {
            while game.player().movement() != Movement::Idle {
                assert!(begun.elapsed() < Duration::from_millis(2_500));
                game.update();
            }
            taken += 1;
            assert_eq!(game.player().extra(), (2 + taken, 0));
        }
    }
    assert_eq!(game.player().pos(), (4, 14));
    assert!(begun.elapsed() >= Duration::from_millis(30));
}
