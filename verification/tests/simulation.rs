use pong_core::ball::{Ball, BALL_EXTENT, BALL_START_VX, BALL_START_VY, BALL_START_X, BALL_START_Y};
use pong_core::border::Border;
use pong_core::geometry::{approx_equal, to_units, Rectangle, ARENA_WIDTH, SCALE};
use pong_core::obstacle::Obstacle;
use pong_core::player::{compare, Player};
use pong_core::score::ScoreBoard;
use pong_core::tick::{tick, GameKey, InputEvent, PADDLE_SPEED};
use pong_core::vec2::{reflection, Vec2};
use std::cmp::Ordering;

fn micro(units: i64) -> i64 {
    units * SCALE
}

fn left_paddle() -> Player {
    Player::new(
        Rectangle { x: micro(10), y: micro(10), width: 25, height: 150 },
        Vec2::new(1, 0),
    )
}

fn right_paddle() -> Player {
    Player::new(
        Rectangle { x: micro(750), y: micro(10), width: 25, height: 150 },
        Vec2::new(-1, 0),
    )
}

fn upper_wall() -> Border {
    Border::Upper { norm: Vec2::new(0, -1), width: 800 }
}

fn lower_wall() -> Border {
    Border::Lower { norm: Vec2::new(0, 1), bottom: 599, width: 800 }
}

fn ball_at(x: i64, y: i64, vx: i64, vy: i64) -> Ball {
    Ball {
        rect: Rectangle { x, y, width: BALL_EXTENT, height: BALL_EXTENT },
        velocity: Vec2::new(vx, vy),
    }
}

#[test]
fn reflection_preserves_speed() {
    let cases = [
        (Vec2::new(3, 4), Vec2::new(1, 0)),
        (Vec2::new(-3, 4), Vec2::new(-1, 0)),
        (Vec2::new(20, -7), Vec2::new(0, 1)),
        (Vec2::new(-5, -12), Vec2::new(0, -1)),
    ];
    for (v, n) in cases {
        let r = reflection(&v, &n);
        assert_eq!(r.x * r.x + r.y * r.y, v.x * v.x + v.y * v.y);
    }
}

#[test]
fn reflection_flips_component_along_normal() {
    let r = reflection(&Vec2::new(-20, 3), &Vec2::new(1, 0));
    assert_eq!(r.x, 20);
    assert_eq!(r.y, 3);
    let r = reflection(&Vec2::new(4, -9), &Vec2::new(0, -1));
    assert_eq!(r.x, 4);
    assert_eq!(r.y, 9);
}

#[test]
fn left_paddle_flips_horizontal_velocity() {
    let first = left_paddle();
    let second = right_paddle();
    let mut ball = ball_at(micro(20), micro(50), -20, 5);
    ball.calc_velocity(&first, &second, &upper_wall(), &lower_wall());
    assert_eq!(ball.velocity.x, 20);
    assert_eq!(ball.velocity.y, 5);
}

#[test]
fn upper_wall_flips_vertical_velocity_only() {
    let first = left_paddle();
    let second = right_paddle();
    let mut ball = ball_at(micro(400), micro(-5), 7, -9);
    ball.calc_velocity(&first, &second, &upper_wall(), &lower_wall());
    assert_eq!(ball.velocity.x, 7);
    assert_eq!(ball.velocity.y, 9);
}

#[test]
fn lower_wall_flips_vertical_velocity_only() {
    let first = left_paddle();
    let second = right_paddle();
    let mut ball = ball_at(micro(400), micro(580), 7, 9);
    ball.calc_velocity(&first, &second, &upper_wall(), &lower_wall());
    assert_eq!(ball.velocity.x, 7);
    assert_eq!(ball.velocity.y, -9);
}

#[test]
fn paddle_at_top_does_not_move_further_up() {
    let mut p = Player::new(
        Rectangle { x: micro(10), y: 0, width: 25, height: 150 },
        Vec2::new(1, 0),
    );
    p.set_velocity(-PADDLE_SPEED);
    p.move_player();
    assert_eq!(p.rect.y, 0);
}

#[test]
fn paddle_at_top_moves_down() {
    let mut p = Player::new(
        Rectangle { x: micro(10), y: 0, width: 25, height: 150 },
        Vec2::new(1, 0),
    );
    p.set_velocity(PADDLE_SPEED);
    p.move_player();
    // one hundredth of a second at 40 units per second
    assert_eq!(p.rect.y, 400_000);
}

#[test]
fn paddle_at_bottom_does_not_move_further_down() {
    let mut p = Player::new(
        Rectangle { x: micro(10), y: micro(450), width: 25, height: 150 },
        Vec2::new(1, 0),
    );
    p.set_velocity(PADDLE_SPEED);
    p.move_player();
    assert_eq!(p.rect.y, micro(450));
    p.set_velocity(-PADDLE_SPEED);
    p.move_player();
    assert_eq!(p.rect.y, micro(450) - 400_000);
}

#[test]
fn left_goal_scores_for_second_player_and_resets_ball() {
    let mut first = left_paddle();
    let mut second = right_paddle();
    let mut ball = ball_at(micro(-1), micro(300), -20, 0);
    let mut board = ScoreBoard::new();
    let events: Vec<InputEvent> = Vec::new();
    let quit = tick(
        &events,
        &mut first,
        &mut second,
        &upper_wall(),
        &lower_wall(),
        &mut ball,
        &mut board,
    );
    assert!(!quit);
    assert_eq!(board.second, 1);
    assert_eq!(board.first, 0);
    assert!(board.needs_refresh);
    assert_eq!(ball.rect.x, BALL_START_X);
    assert_eq!(ball.rect.y, BALL_START_Y);
    assert_eq!(ball.velocity.x, BALL_START_VX);
    assert_eq!(ball.velocity.y, BALL_START_VY);
}

#[test]
fn right_goal_scores_for_first_player_and_resets_ball() {
    let mut first = left_paddle();
    let mut second = right_paddle();
    let mut ball = ball_at(ARENA_WIDTH - micro(10), micro(300), 20, 0);
    let mut board = ScoreBoard::new();
    let events: Vec<InputEvent> = Vec::new();
    tick(
        &events,
        &mut first,
        &mut second,
        &upper_wall(),
        &lower_wall(),
        &mut ball,
        &mut board,
    );
    assert_eq!(board.first, 1);
    assert_eq!(board.second, 0);
    assert_eq!(ball.rect.x, BALL_START_X);
    assert_eq!(ball.rect.y, BALL_START_Y);
}

#[test]
fn pure_horizontal_reflect_off_resting_paddle() {
    // ball spanning x in [10, 35] and y in [50, 75], moving left at the
    // left paddle spanning x in [10, 35] and y in [10, 160]
    let first = left_paddle();
    let second = right_paddle();
    let mut ball = ball_at(micro(10), micro(50), -20, 0);
    ball.calc_velocity(&first, &second, &upper_wall(), &lower_wall());
    assert_eq!(ball.velocity.x, 20);
    assert_eq!(ball.velocity.y, 0);
}

#[test]
fn contact_test_is_idempotent() {
    let p = left_paddle();
    let overlapping = ball_at(micro(20), micro(60), -20, 0);
    let apart = ball_at(micro(400), micro(60), -20, 0);
    assert_eq!(p.collision(&overlapping), p.collision(&overlapping));
    assert!(p.collision(&overlapping));
    assert_eq!(p.collision(&apart), p.collision(&apart));
    assert!(!p.collision(&apart));
}

#[test]
fn no_contact_when_only_one_axis_overlaps() {
    let p = left_paddle();
    // horizontal overlap but vertically far below the paddle
    let below = ball_at(micro(20), micro(400), -20, 0);
    assert!(!p.collision(&below));
    // vertical overlap but horizontally far to the right
    let beside = ball_at(micro(400), micro(60), -20, 0);
    assert!(!p.collision(&beside));
}

#[test]
fn touching_edges_follow_stable_tie_order() {
    let p = left_paddle();
    // ball's left edge exactly on the paddle's right edge: separated
    let at_right_edge = ball_at(micro(35), micro(60), -20, 0);
    assert!(!p.collision(&at_right_edge));
    // ball's right edge exactly on the paddle's left edge: contact
    let at_left_edge = ball_at(micro(10) - 25 * SCALE, micro(60), 20, 0);
    assert!(p.collision(&at_left_edge));
}

#[test]
fn paddle_english_adds_to_reflected_ball() {
    let mut first = left_paddle();
    first.set_velocity(PADDLE_SPEED);
    let second = right_paddle();
    let mut ball = ball_at(micro(20), micro(60), -20, 0);
    ball.calc_velocity(&first, &second, &upper_wall(), &lower_wall());
    assert_eq!(ball.velocity.x, 20);
    assert_eq!(ball.velocity.y, PADDLE_SPEED);
}

#[test]
fn normal_motion_moves_ball_by_fixed_step() {
    let mut first = left_paddle();
    let mut second = right_paddle();
    let mut ball = ball_at(micro(200), micro(200), 20, -8);
    let mut board = ScoreBoard::new();
    let events: Vec<InputEvent> = Vec::new();
    tick(
        &events,
        &mut first,
        &mut second,
        &upper_wall(),
        &lower_wall(),
        &mut ball,
        &mut board,
    );
    assert_eq!(ball.rect.x, micro(200) + 20 * 10_000);
    assert_eq!(ball.rect.y, micro(200) - 8 * 10_000);
    assert_eq!(board.first, 0);
    assert_eq!(board.second, 0);
    assert!(!board.needs_refresh);
}

#[test]
fn escape_key_requests_quit() {
    let mut first = left_paddle();
    let mut second = right_paddle();
    let mut ball = Ball::new();
    let mut board = ScoreBoard::new();
    let events = vec![InputEvent::KeyDown { key: GameKey::Escape, repeat: true }];
    let quit = tick(
        &events,
        &mut first,
        &mut second,
        &upper_wall(),
        &lower_wall(),
        &mut ball,
        &mut board,
    );
    assert!(quit);
}

#[test]
fn last_input_edge_wins() {
    let mut first = left_paddle();
    let mut second = right_paddle();
    let mut ball = Ball::new();
    let mut board = ScoreBoard::new();
    let events = vec![
        InputEvent::KeyDown { key: GameKey::W, repeat: false },
        InputEvent::KeyDown { key: GameKey::S, repeat: false },
        InputEvent::KeyDown { key: GameKey::Up, repeat: false },
    ];
    tick(
        &events,
        &mut first,
        &mut second,
        &upper_wall(),
        &lower_wall(),
        &mut ball,
        &mut board,
    );
    assert_eq!(first.velocity, PADDLE_SPEED);
    assert_eq!(second.velocity, -PADDLE_SPEED);
}

#[test]
fn repeated_key_down_does_not_reassign() {
    let mut first = left_paddle();
    let mut second = right_paddle();
    let mut ball = Ball::new();
    let mut board = ScoreBoard::new();
    let events = vec![
        InputEvent::KeyDown { key: GameKey::S, repeat: false },
        InputEvent::KeyDown { key: GameKey::S, repeat: true },
    ];
    tick(
        &events,
        &mut first,
        &mut second,
        &upper_wall(),
        &lower_wall(),
        &mut ball,
        &mut board,
    );
    assert_eq!(first.velocity, PADDLE_SPEED);
}

#[test]
fn key_up_stops_the_paddle() {
    let mut first = left_paddle();
    let mut second = right_paddle();
    let mut ball = Ball::new();
    let mut board = ScoreBoard::new();
    let events = vec![
        InputEvent::KeyDown { key: GameKey::W, repeat: false },
        InputEvent::KeyUp { key: GameKey::W, repeat: false },
    ];
    tick(
        &events,
        &mut first,
        &mut second,
        &upper_wall(),
        &lower_wall(),
        &mut ball,
        &mut board,
    );
    assert_eq!(first.velocity, 0);
}

#[test]
fn score_board_counts_goals() {
    let mut board = ScoreBoard::new();
    assert_eq!(board.first, 0);
    assert_eq!(board.second, 0);
    assert!(!board.needs_refresh);
    board.inc_first();
    assert_eq!(board.first, 1);
    assert!(board.needs_refresh);
    board.clear_refresh();
    assert!(!board.needs_refresh);
    board.inc_second();
    board.inc_second();
    assert_eq!(board.second, 2);
    assert_eq!(board.first, 1);
    assert!(board.needs_refresh);
}

#[test]
fn rectangle_edges() {
    let r = Rectangle { x: micro(10), y: micro(20), width: 25, height: 150 };
    assert_eq!(r.right_x(), micro(35));
    assert_eq!(r.bottom_y(), micro(170));
}

#[test]
fn approx_equal_uses_micro_unit_tolerance() {
    assert!(approx_equal(micro(600), micro(600)));
    assert!(!approx_equal(micro(600), micro(600) + 1));
    assert!(!approx_equal(0, 1));
    assert!(approx_equal(-5, -5));
}

#[test]
fn truncation_is_toward_zero() {
    assert_eq!(to_units(1_999_999), 1);
    assert_eq!(to_units(-1_999_999), -1);
    assert_eq!(to_units(-200_000), 0);
    assert_eq!(to_units(micro(35)), 35);
}

#[test]
fn compare_orders_by_coordinate_only() {
    assert_eq!(compare((1, 0), (2, 1)), Ordering::Less);
    assert_eq!(compare((5, 0), (5, 1)), Ordering::Equal);
    assert_eq!(compare((9, 1), (2, 0)), Ordering::Greater);
}

#[test]
fn ball_reset_restores_origin_state() {
    let mut ball = ball_at(micro(700), micro(12), -33, 44);
    ball.set_to_origin();
    assert_eq!(ball.rect.x, BALL_START_X);
    assert_eq!(ball.rect.y, BALL_START_Y);
    assert_eq!(ball.velocity.x, BALL_START_VX);
    assert_eq!(ball.velocity.y, BALL_START_VY);
    assert_eq!(ball.rect.width, BALL_EXTENT);
}

#[test]
fn move_ball_integrates_velocity() {
    let mut ball = ball_at(micro(100), micro(100), 20, -40);
    ball.move_ball();
    assert_eq!(ball.rect.x, micro(100) + 200_000);
    assert_eq!(ball.rect.y, micro(100) - 400_000);
    ball.move_ball();
    assert_eq!(ball.rect.x, micro(100) + 400_000);
}

#[test]
fn sequential_bounces_compose_in_listed_order() {
    // ball in the upper left corner: in contact with the left paddle and
    // above the arena at once; the paddle reflects first, then the upper
    // wall flips the vertical component that the paddle english set
    let mut first = left_paddle();
    first.set_velocity(PADDLE_SPEED);
    let second = right_paddle();
    let mut ball = ball_at(micro(20), micro(-2), -20, -10);
    ball.calc_velocity(&first, &second, &upper_wall(), &lower_wall());
    // paddle: (-20,-10) -> (20, -10 + 40) = (20, 30); upper wall: (20, -30)
    assert_eq!(ball.velocity.x, 20);
    assert_eq!(ball.velocity.y, -30);
}
