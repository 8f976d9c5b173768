use snake::point::Point;
use snake::snake::{
    is_opposite, Move, Snake, DEFAULT_MOVE_DELAY, INITIAL_SCORE, INITIAL_SEGMENTS,
};

#[test]
fn fresh_snake_tail_trails_left_of_head() {
    let s = Snake::new(Point::new(10, 10), Move::Right, 1_000_000);
    assert_eq!(s.get_head(), Point::new(10, 10));
    let pts = s.tail_to_points();
    assert_eq!(
        pts,
        vec![Point::new(9, 10), Point::new(8, 10), Point::new(7, 10)]
    );
}

#[test]
fn new_snake_defaults() {
    let s = Snake::new_with_defaults(Point::new(3, 4));
    assert_eq!(s.get_head(), Point::new(3, 4));
    assert_eq!(s.score, INITIAL_SCORE);
    assert!(!s.dead);
    assert_eq!(s.move_delay, DEFAULT_MOVE_DELAY);
    assert_eq!(s.tail_to_points().len(), INITIAL_SEGMENTS);
}

#[test]
fn update_at_interval_moves_one_cell() {
    let mut s = Snake::new(Point::new(5, 5), Move::Right, 500_000);
    s.update(500_000);
    assert_eq!(s.get_head(), Point::new(6, 5));
    let pts = s.tail_to_points();
    assert_eq!(pts.len(), 3);
    // the body follows the path the head has taken
    assert_eq!(pts, vec![Point::new(5, 5), Point::new(4, 5), Point::new(3, 5)]);
}

#[test]
fn reverse_request_is_dropped() {
    let mut s = Snake::new(Point::new(5, 5), Move::Right, 500_000);
    s.set_move(Move::Left);
    s.update(500_000);
    // still moving in the original direction
    assert_eq!(s.get_head(), Point::new(6, 5));
}

#[test]
fn perpendicular_request_is_taken() {
    let mut s = Snake::new(Point::new(5, 5), Move::Right, 500_000);
    s.set_move(Move::Down);
    s.update(500_000);
    assert_eq!(s.get_head(), Point::new(5, 6));
}

#[test]
fn collision_with_walls_and_obstacles() {
    let inside = Snake::new(Point::new(4, 5), Move::Right, 500_000);
    assert!(!inside.check_collision(10, 10, &[]));
    assert!(!inside.check_collision(10, 10, &[Point::new(2, 2)]));
    assert!(inside.check_collision(10, 10, &[Point::new(4, 5)]));

    let corner = Snake::new(Point::new(0, 0), Move::Right, 500_000);
    assert!(!corner.check_collision(10, 10, &[]));
    let far_corner = Snake::new(Point::new(9, 9), Move::Right, 500_000);
    assert!(!far_corner.check_collision(10, 10, &[]));

    assert!(Snake::new(Point::new(-1, 3), Move::Right, 500_000).check_collision(10, 10, &[]));
    assert!(Snake::new(Point::new(10, 3), Move::Right, 500_000).check_collision(10, 10, &[]));
    assert!(Snake::new(Point::new(3, -1), Move::Right, 500_000).check_collision(10, 10, &[]));
    assert!(Snake::new(Point::new(3, 10), Move::Right, 500_000).check_collision(10, 10, &[]));
}

#[test]
fn add_segment_extends_tail_by_one() {
    let mut s = Snake::new(Point::new(10, 10), Move::Right, 500_000);
    let before = s.tail_to_points();
    s.add_segment();
    let after = s.tail_to_points();
    assert_eq!(after.len(), before.len() + 1);
    // the old cells stay where they were and the new cell continues the
    // trailing direction, so the rendered tail does not jump
    assert_eq!(&after[..before.len()], &before[..]);
    assert_eq!(after[3], Point::new(6, 10));
}

#[test]
fn accumulator_keeps_leftover_time() {
    let mut s = Snake::new(Point::new(5, 5), Move::Right, 500_000);
    s.update(300_000);
    assert_eq!(s.get_head(), Point::new(5, 5));
    assert_eq!(s.wait_time, 300_000);
    s.update(300_000);
    s.update(300_000);
    // exactly one movement across the three calls, 0.4s left over, not 0
    assert_eq!(s.get_head(), Point::new(6, 5));
    assert_eq!(s.wait_time, 400_000);
}

#[test]
fn opposite_directions() {
    assert!(is_opposite(Move::Up, Move::Down));
    assert!(is_opposite(Move::Down, Move::Up));
    assert!(is_opposite(Move::Left, Move::Right));
    assert!(is_opposite(Move::Right, Move::Left));
    assert!(!is_opposite(Move::Up, Move::Up));
    assert!(!is_opposite(Move::Up, Move::Left));
    assert!(!is_opposite(Move::Down, Move::Right));
}
