use snake_game::frame::Rect;
use snake_game::game::{Game2D, CELL_SIZE, START};
use snake_game::snake::Snake;
use snake_game::traits::{Game, DIRECTION};

#[test]
fn snake_starts_with_one_segment_heading_right() {
    let s = Snake::new(10);
    assert_eq!(s.body, vec![(10, 10)]);
    assert_eq!(s.direction, DIRECTION::RIGHT);
    assert_eq!(s.head_position(), (10, 10));
}

#[test]
fn snake_step_in_each_direction() {
    let cases = [
        (DIRECTION::UP, (3, 6)),
        (DIRECTION::RIGHT, (4, 7)),
        (DIRECTION::DOWN, (3, 8)),
        (DIRECTION::LEFT, (2, 7)),
    ];
    for (d, expected) in cases {
        let mut s = Snake::new(0);
        s.body = vec![(3, 7)];
        s.change_direction(d);
        s.update();
        assert_eq!(s.head_position(), expected);
        assert_eq!(s.body.len(), 1);
    }
}

#[test]
fn snake_step_drops_tail() {
    let mut s = Snake::new(0);
    s.body = vec![(5, 5), (4, 5), (3, 5), (3, 4)];
    s.update();
    assert_eq!(s.body, vec![(6, 5), (5, 5), (4, 5), (3, 5)]);
}

#[test]
fn snake_length_kept_over_many_steps() {
    let mut s = Snake::new(0);
    s.body = vec![(0, 0), (0, 1), (0, 2)];
    let turns = [DIRECTION::UP, DIRECTION::LEFT, DIRECTION::DOWN, DIRECTION::RIGHT];
    for i in 0..40 {
        s.change_direction(turns[i % 4]);
        s.update();
        assert_eq!(s.body.len(), 3);
    }
}

#[test]
fn snake_reversal_is_allowed() {
    let mut s = Snake::new(5);
    s.update();
    s.change_direction(DIRECTION::LEFT);
    s.update();
    assert_eq!(s.head_position(), (5, 5));
}

#[test]
fn new_game_state() {
    let g = Game2D::new(100, 100);
    assert_eq!(g.head_position(), (START, START));
    assert_eq!(g.body(), &vec![(10, 10)]);
    assert!(!g.is_game_over());
    assert_eq!(g.direction(), DIRECTION::RIGHT);
    assert_eq!(g.width(), 100);
    assert_eq!(g.height(), 100);
    assert_eq!(g.cell_size(), CELL_SIZE);
    assert_eq!(g.cell_size(), 10);
}

#[test]
fn setting_same_heading_without_tick_changes_nothing() {
    let mut g = Game2D::new(100, 100);
    g.change_direction(DIRECTION::RIGHT);
    assert_eq!(g.head_position(), (10, 10));
    assert!(!g.is_game_over());
    assert_eq!(g.direction(), DIRECTION::RIGHT);
}

#[test]
fn right_edge_ends_game() {
    let mut g = Game2D::with_start(100, 100, 9);
    assert_eq!(g.head_position(), (9, 9));
    g.update();
    assert_eq!(g.head_position(), (10, 9));
    assert!(g.is_game_over());
}

#[test]
fn left_edge_ends_game() {
    let mut g = Game2D::with_start(100, 100, 0);
    g.change_direction(DIRECTION::DOWN);
    for _ in 0..5 {
        g.update();
        assert!(!g.is_game_over());
    }
    assert_eq!(g.head_position(), (0, 5));
    g.change_direction(DIRECTION::LEFT);
    g.update();
    assert_eq!(g.head_position(), (-1, 5));
    assert!(g.is_game_over());
}

#[test]
fn top_and_bottom_edges_end_game() {
    let mut g = Game2D::with_start(100, 100, 0);
    g.change_direction(DIRECTION::UP);
    g.update();
    assert_eq!(g.head_position(), (0, -1));
    assert!(g.is_game_over());

    let mut h = Game2D::with_start(100, 50, 4);
    h.change_direction(DIRECTION::DOWN);
    h.update();
    assert_eq!(h.head_position(), (4, 5));
    assert!(h.is_game_over());
}

#[test]
fn start_cell_outside_small_field_ends_on_first_tick() {
    let mut g = Game2D::new(100, 100);
    g.update();
    assert_eq!(g.head_position(), (11, 10));
    assert!(g.is_game_over());
}

#[test]
fn grid_uses_floor_of_field_over_cell() {
    let mut g = Game2D::with_start(109, 109, 9);
    g.update();
    assert_eq!(g.head_position(), (10, 9));
    assert!(g.is_game_over());

    let mut h = Game2D::with_start(110, 110, 9);
    h.update();
    assert_eq!(h.head_position(), (10, 9));
    assert!(!h.is_game_over());
}

#[test]
fn ticks_after_game_over_change_nothing() {
    let mut g = Game2D::with_start(100, 100, 9);
    g.update();
    assert!(g.is_game_over());
    let body = g.body().clone();
    for _ in 0..10 {
        g.update();
        assert_eq!(g.body(), &body);
        assert!(g.is_game_over());
    }
    g.change_direction(DIRECTION::UP);
    assert_eq!(g.direction(), DIRECTION::UP);
    g.update();
    assert_eq!(g.body(), &body);
}

#[test]
fn reset_restores_start() {
    let mut g = Game2D::with_start(300, 200, 3);
    g.change_direction(DIRECTION::DOWN);
    for _ in 0..30 {
        g.update();
    }
    assert!(g.is_game_over());
    g.reset();
    assert_eq!(g.body(), &vec![(START, START)]);
    assert_eq!(g.direction(), DIRECTION::RIGHT);
    assert!(!g.is_game_over());
    assert_eq!(g.width(), 300);
    assert_eq!(g.height(), 200);
}

#[test]
fn trait_methods_drive_the_game() {
    let mut g = Game2D::new(200, 200);
    Game::change_direction(&mut g, DIRECTION::UP);
    Game::update(&mut g);
    assert_eq!(g.head_position(), (10, 9));
    Game::reset(&mut g);
    assert_eq!(g.head_position(), (10, 10));
    assert_eq!(g.direction(), DIRECTION::RIGHT);
}

#[test]
fn arrow_keys_select_directions() {
    assert_eq!(DIRECTION::from_key("ArrowUp"), Some(DIRECTION::UP));
    assert_eq!(DIRECTION::from_key("ArrowRight"), Some(DIRECTION::RIGHT));
    assert_eq!(DIRECTION::from_key("ArrowDown"), Some(DIRECTION::DOWN));
    assert_eq!(DIRECTION::from_key("ArrowLeft"), Some(DIRECTION::LEFT));
    assert_eq!(DIRECTION::from_key("Spacebar"), None);
    assert_eq!(DIRECTION::from_key("arrowup"), None);
    assert_eq!(DIRECTION::from_key(""), None);
}

#[test]
fn unknown_key_leaves_heading() {
    let mut g = Game2D::new(200, 200);
    g.handle_key("ArrowDown");
    assert_eq!(g.direction(), DIRECTION::DOWN);
    g.handle_key("Spacebar");
    assert_eq!(g.direction(), DIRECTION::DOWN);
    g.handle_key("ArrowLeft");
    assert_eq!(g.direction(), DIRECTION::LEFT);
    assert_eq!(g.head_position(), (10, 10));
}

#[test]
fn frame_of_running_game() {
    let g = Game2D::new(200, 150);
    let f = g.frame();
    assert_eq!(f.clear, Rect { x: 0, y: 0, w: 200, h: 150 });
    assert_eq!(f.border, Rect { x: 0, y: 0, w: 200, h: 150 });
    assert_eq!(f.squares, vec![Rect { x: 100, y: 100, w: 10, h: 10 }]);
    assert_eq!(f.game_over_at, None);
}

#[test]
fn frame_of_finished_game() {
    let mut g = Game2D::with_start(100, 100, 0);
    g.change_direction(DIRECTION::LEFT);
    g.update();
    assert!(g.is_game_over());
    let f = g.frame();
    assert_eq!(f.squares, vec![Rect { x: -10, y: 0, w: 10, h: 10 }]);
    assert_eq!(f.game_over_at, Some((-30, 50)));
}

#[test]
fn snake_steps_beside_integer_limits() {
    let mut s = Snake::new(0);
    s.body = vec![(0, i32::MAX)];
    s.update();
    assert_eq!(s.body, vec![(1, i32::MAX)]);

    let mut t = Snake::new(0);
    t.body = vec![(i32::MIN, 0), (i32::MIN, 1)];
    t.update();
    assert_eq!(t.body, vec![(i32::MIN + 1, 0), (i32::MIN, 0)]);
    assert_eq!(t.direction, DIRECTION::RIGHT);

    let mut u = Snake::new(0);
    u.body = vec![(i32::MAX, i32::MIN + 1)];
    u.change_direction(DIRECTION::UP);
    u.update();
    assert_eq!(u.body, vec![(i32::MAX, i32::MIN)]);
}
