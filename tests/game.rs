use snake_game::apple::{free_cells, Apple};
use snake_game::direction::Direction;
use snake_game::snake::Snake;
use snake_game::snake_game::SnakeGame;
use snake_game::{block_origin, BLOCK_SIZE, GRID_X, GRID_Y};

fn snake(body: &[(i32, i32)], direction: Direction) -> Snake {
    Snake { body: body.to_vec(), direction, _eating_apple: false }
}

fn in_grid(c: (i32, i32), gx: i32, gy: i32) -> bool {
    0 <= c.0 && c.0 < gx && 0 <= c.1 && c.1 < gy
}

#[test]
fn opposite_pairs() {
    assert!(Direction::Up.is_opposite(&Direction::Down));
    assert!(Direction::Down.is_opposite(&Direction::Up));
    assert!(Direction::Left.is_opposite(&Direction::Right));
    assert!(Direction::Right.is_opposite(&Direction::Left));
    assert!(!Direction::Up.is_opposite(&Direction::Left));
    assert!(!Direction::Right.is_opposite(&Direction::Right));
}

#[test]
fn advance_moves_each_way() {
    let cases = [
        (Direction::Down, (4, 6)),
        (Direction::Up, (4, 4)),
        (Direction::Left, (3, 5)),
        (Direction::Right, (5, 5)),
    ];
    for (d, head) in cases {
        let mut s = snake(&[(4, 5), (4, 6), (4, 7)], d);
        s.update();
        assert_eq!(s.body, vec![head, (4, 5), (4, 6)]);
        assert_eq!(s.direction, d);
    }
}

#[test]
fn advance_keeps_length_unless_growing() {
    let mut s = snake(&[(2, 2), (2, 3), (2, 4)], Direction::Up);
    s.update();
    assert_eq!(s.body.len(), 3);
    s._eating_apple = true;
    s.update();
    assert_eq!(s.body, vec![(2, 0), (2, 1), (2, 2), (2, 3)]);
    assert!(!s._eating_apple);
    s.update();
    assert_eq!(s.body.len(), 4);
}

#[test]
fn collision_is_membership() {
    let s = snake(&[(1, 1), (1, 2), (2, 2)], Direction::Up);
    assert!(s.check_collision((1, 1)));
    assert!(s.check_collision((2, 2)));
    assert!(!s.check_collision((2, 1)));
}

#[test]
fn apple_in_front_sets_growth() {
    let mut s = snake(&[(1, 1), (1, 2)], Direction::Right);
    assert!(!s.check_apple_in_front((1, 0)));
    assert!(!s._eating_apple);
    assert!(s.check_apple_in_front((2, 1)));
    assert!(s._eating_apple);
    assert_eq!(s.body, vec![(1, 1), (1, 2)]);
}

#[test]
fn loop_snake_self_collision() {
    let body = [(3, 3), (3, 4), (3, 5), (2, 5), (2, 4), (2, 3)];
    assert!(!snake(&body, Direction::Up).check_head_self_collision());
    assert!(snake(&body, Direction::Down).check_head_self_collision());
}

#[test]
fn pair_never_collides_moving_forward() {
    for d in [Direction::Up, Direction::Left, Direction::Right] {
        assert!(!snake(&[(5, 5), (5, 6)], d).check_head_self_collision());
    }
    assert!(snake(&[(5, 5), (5, 6)], Direction::Down).check_head_self_collision());
}

#[test]
fn free_cells_in_order() {
    let s = snake(&[(0, 0), (0, 1), (1, 1)], Direction::Right);
    assert_eq!(free_cells(&s, 2, 3), vec![(0, 2), (1, 0), (1, 2)]);
    let full = snake(&[(0, 0), (1, 0)], Direction::Right);
    assert!(free_cells(&full, 2, 1).is_empty());
}

#[test]
fn apple_avoids_snake_and_stays_on_board() {
    let s = snake(&[(0, 0), (0, 1), (1, 1), (1, 0)], Direction::Right);
    let mut apple = Apple { loc: (0, 0) };
    for _ in 0..200 {
        assert!(apple.place_randomly(&s, 3, 2));
        assert!(in_grid(apple.loc, 3, 2));
        assert!(!s.check_collision(apple.loc));
    }
}

#[test]
fn apple_takes_the_only_free_cell() {
    let s = snake(&[(0, 0), (1, 0)], Direction::Right);
    let mut apple = Apple { loc: (0, 0) };
    assert!(apple.place_randomly(&s, 3, 1));
    assert_eq!(apple.loc, (2, 0));
}

#[test]
fn apple_stays_on_full_board() {
    let s = snake(&[(0, 0), (1, 0)], Direction::Right);
    let mut apple = Apple { loc: (7, 7) };
    assert!(!apple.place_randomly(&s, 2, 1));
    assert_eq!(apple.loc, (7, 7));
}

#[test]
fn new_game_starts_from_initial_snake() {
    let g = SnakeGame::new(GRID_X, GRID_Y);
    assert_eq!(g.snake().body, vec![(0, 0), (0, 1)]);
    assert_eq!(g.snake().direction, Direction::Right);
    assert!(!g.snake()._eating_apple);
    assert!(!g.direction_pressed());
    assert!(in_grid(g.apple().loc, GRID_X, GRID_Y));
    assert!(!g.snake().check_collision(g.apple().loc));
    assert_eq!((g.grid_x(), g.grid_y()), (10, 10));
}

#[test]
fn tick_eats_apple_ahead() {
    let s = snake(&[(5, 5), (5, 6)], Direction::Right);
    let mut g = SnakeGame::with_state(10, 10, s, Apple { loc: (6, 5) });
    g.update();
    assert_eq!(g.snake().body, vec![(6, 5), (5, 5), (5, 6)]);
    assert_ne!(g.apple().loc, (6, 5));
    assert!(in_grid(g.apple().loc, 10, 10));
    assert!(!g.snake().check_collision(g.apple().loc));
}

#[test]
fn tick_off_the_top_resets() {
    let s = snake(&[(0, 0), (0, 1)], Direction::Up);
    let mut g = SnakeGame::with_state(10, 10, s, Apple { loc: (4, 4) });
    g.update();
    assert_eq!(g.snake().body, vec![(0, 0), (0, 1)]);
    assert_eq!(g.snake().direction, Direction::Right);
    assert!(!g.snake().check_collision(g.apple().loc));
}

#[test]
fn tick_resets_before_running_into_itself() {
    let body = [(3, 3), (3, 4), (2, 4), (1, 4), (1, 3), (1, 2)];
    let mut g = SnakeGame::with_state(10, 10, snake(&body, Direction::Left), Apple { loc: (9, 9) });
    g.update();
    assert_eq!(g.snake().body, vec![(0, 0), (0, 1)]);
    assert_eq!(g.snake().direction, Direction::Right);
}

#[test]
fn tick_moves_without_apple() {
    let s = snake(&[(2, 2), (1, 2)], Direction::Right);
    let mut g = SnakeGame::with_state(10, 10, s, Apple { loc: (8, 8) });
    g.update();
    assert_eq!(g.snake().body, vec![(3, 2), (2, 2)]);
    assert_eq!(g.apple().loc, (8, 8));
}

#[test]
fn wall_check_uses_grid_height_for_both_axes() {
    let s = snake(&[(5, 0), (4, 0)], Direction::Right);
    let mut g = SnakeGame::with_state(5, 10, s, Apple { loc: (0, 5) });
    g.update();
    assert_eq!(g.snake().body, vec![(6, 0), (5, 0)]);
    let s = snake(&[(10, 0), (9, 0)], Direction::Right);
    let mut g = SnakeGame::with_state(5, 10, s, Apple { loc: (0, 5) });
    g.update();
    assert_eq!(g.snake().body, vec![(0, 0), (0, 1)]);
}

#[test]
fn opposite_request_is_ignored() {
    let s = snake(&[(5, 5), (4, 5)], Direction::Right);
    let mut g = SnakeGame::with_state(10, 10, s, Apple { loc: (0, 0) });
    g.pressed(Direction::Left);
    assert_eq!(g.snake().direction, Direction::Right);
    assert!(g.direction_pressed());
    g.update();
    g.pressed(Direction::Left);
    assert_eq!(g.snake().direction, Direction::Right);
}

#[test]
fn one_change_per_tick() {
    let s = snake(&[(5, 5), (4, 5)], Direction::Right);
    let mut g = SnakeGame::with_state(10, 10, s, Apple { loc: (0, 0) });
    g.pressed(Direction::Up);
    g.pressed(Direction::Left);
    g.pressed(Direction::Down);
    assert_eq!(g.snake().direction, Direction::Up);
    g.update();
    assert_eq!(g.snake().body, vec![(5, 4), (5, 5)]);
    assert!(!g.direction_pressed());
    g.pressed(Direction::Left);
    assert_eq!(g.snake().direction, Direction::Left);
}

#[test]
fn block_origin_scales_cells() {
    assert_eq!(block_origin((3, 7), BLOCK_SIZE), (60, 140));
    assert_eq!(block_origin((0, 0), BLOCK_SIZE), (0, 0));
}
