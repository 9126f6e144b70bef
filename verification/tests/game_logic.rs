use snake::coords::{is_colliding, Coordinates};
use snake::food::{Food, COLS, ROWS};
use snake::game::{App, GameStatus};
use snake::snake::{GameKey, Snake};

fn coord(x: i32, y: i32) -> Coordinates {
    Coordinates { x, y }
}

fn snake_with(body: Vec<Coordinates>, direction: Coordinates, pending: Coordinates) -> Snake {
    let pos = body[0];
    Snake {
        snake_parts: body,
        direction,
        new_direction: pending,
        pos,
    }
}

#[test]
fn scenario_a_straight_move() {
    let mut s = snake_with(
        vec![coord(4, 4), coord(3, 4), coord(2, 4)],
        coord(1, 0),
        coord(1, 0),
    );
    let collided = s.update();
    assert!(!collided);
    assert_eq!(s.snake_parts, vec![coord(5, 4), coord(4, 4), coord(3, 4)]);
    assert_eq!(s.pos, coord(5, 4));
}

#[test]
fn scenario_b_down_press_accepted() {
    let mut s = snake_with(
        vec![coord(4, 4), coord(3, 4), coord(2, 4)],
        coord(1, 0),
        coord(1, 0),
    );
    let collided = s.update();
    assert!(!collided);
    s.pressed(&GameKey::Down);
    assert_eq!(s.new_direction, coord(0, 1));
    let collided = s.update();
    assert!(!collided);
    assert_eq!(s.direction, coord(0, 1));
    assert_eq!(s.pos, coord(5, 5));
    let collided = s.update();
    assert!(!collided);
    assert_eq!(s.pos, coord(5, 6));
}

#[test]
fn scenario_c_reversal_rejected() {
    let mut s = snake_with(
        vec![coord(4, 4), coord(3, 4), coord(2, 4)],
        coord(1, 0),
        coord(-1, 0),
    );
    s.update();
    assert_eq!(s.direction, coord(1, 0));
    assert_eq!(s.pos, coord(5, 4));
}

#[test]
fn scenario_d_eat_grows_and_respawns() {
    let mut app = App::new();
    app.food.pos = coord(5, 4);
    assert_eq!(app.snake.snake_parts.len(), 3);
    app.update();
    assert_eq!(app.status, GameStatus::Running);
    assert_eq!(app.snake.pos, coord(5, 4));
    assert_eq!(app.snake.snake_parts.len(), 4);
    assert_eq!(
        app.snake.snake_parts,
        vec![coord(5, 4), coord(4, 4), coord(3, 4), coord(-1, -1)]
    );
    assert!(app.food.pos.x >= 0 && app.food.pos.x < ROWS);
    assert!(app.food.pos.y >= 0 && app.food.pos.y < COLS);
}

#[test]
fn scenario_e_self_collision_terminates() {
    let mut app = App::new();
    app.snake = snake_with(
        vec![coord(5, 5), coord(5, 4), coord(5, 4)],
        coord(0, -1),
        coord(0, -1),
    );
    app.update();
    assert_eq!(app.status, GameStatus::Terminated);
    assert_eq!(app.snake.pos, coord(5, 4));
    // No further ticks: a terminated game stays exactly as it is.
    let body_before = app.snake.snake_parts.clone();
    app.update();
    assert_eq!(app.status, GameStatus::Terminated);
    assert_eq!(app.snake.snake_parts, body_before);
    assert_eq!(app.snake.pos, coord(5, 4));
}

#[test]
fn body_never_shrinks() {
    let mut app = App::new();
    for _ in 0..32 {
        let before = app.snake.snake_parts.len();
        app.pressed(&GameKey::Down);
        app.update();
        assert!(app.snake.snake_parts.len() >= before);
        app.pressed(&GameKey::Right);
        app.update();
        let after = app.snake.snake_parts.len();
        assert!(after >= before);
        if app.status == GameStatus::Terminated {
            break;
        }
    }
}

#[test]
fn head_moves_by_committed_direction() {
    let mut s = snake_with(vec![coord(7, 9)], coord(0, 1), coord(0, 1));
    let collided = s.update();
    assert!(!collided);
    assert_eq!(s.pos, coord(7, 10));
    assert_eq!(s.snake_parts, vec![coord(7, 10)]);
}

#[test]
fn pressed_maps_arrow_keys() {
    let mut s = snake_with(vec![coord(4, 4)], coord(1, 0), coord(1, 0));
    s.pressed(&GameKey::Up);
    assert_eq!(s.new_direction, coord(0, -1));
    s.pressed(&GameKey::Down);
    assert_eq!(s.new_direction, coord(0, 1));
    s.pressed(&GameKey::Left);
    assert_eq!(s.new_direction, coord(-1, 0));
    s.pressed(&GameKey::Right);
    assert_eq!(s.new_direction, coord(1, 0));
    s.pressed(&GameKey::Other);
    assert_eq!(s.new_direction, coord(1, 0));
    assert_eq!(s.direction, coord(1, 0));
}

#[test]
fn is_colliding_compares_cells() {
    assert!(is_colliding(&coord(3, 7), &coord(3, 7)));
    assert!(!is_colliding(&coord(3, 7), &coord(3, 8)));
    assert!(!is_colliding(&coord(4, 7), &coord(3, 7)));
}

#[test]
fn body_scan_finds_segments() {
    let s = snake_with(
        vec![coord(4, 4), coord(3, 4), coord(2, 4)],
        coord(1, 0),
        coord(1, 0),
    );
    assert!(s.is_colliding(coord(4, 4)));
    assert!(s.is_colliding(coord(2, 4)));
    assert!(!s.is_colliding(coord(5, 4)));
}

#[test]
fn new_game_initial_state() {
    let app = App::new();
    assert_eq!(app.status, GameStatus::Running);
    assert_eq!(
        app.snake.snake_parts,
        vec![coord(4, 4), coord(3, 4), coord(2, 4)]
    );
    assert_eq!(app.snake.direction, coord(1, 0));
    assert_eq!(app.snake.new_direction, coord(1, 0));
    assert_eq!(app.snake.pos, coord(4, 4));
    assert!(app.food.pos.x >= 0 && app.food.pos.x < ROWS);
    assert!(app.food.pos.y >= 0 && app.food.pos.y < COLS);
}

#[test]
fn food_respawns_in_bounds() {
    let mut food = Food::new();
    for _ in 0..200 {
        food.new_pos();
        assert!(food.pos.x >= 0 && food.pos.x < ROWS);
        assert!(food.pos.y >= 0 && food.pos.y < COLS);
    }
}
