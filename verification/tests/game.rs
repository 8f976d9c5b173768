use snake::game::{Game, FRUIT_SCORE};
use snake::point::Point;
use snake::snake::{Move, Snake, INITIAL_SCORE};

/// All cells any snake occupies: heads plus body cells.
fn occupied_cells(g: &Game) -> Vec<Point> {
    let mut cells = Vec::new();
    for s in &g.snakes {
        cells.push(s.get_head());
        cells.extend(s.tail_to_points());
    }
    cells
}

#[test]
fn new_world_places_fruit_on_free_cell() {
    for (w, h) in [(10u32, 10u32), (3, 3), (40, 30), (1, 1)] {
        let g = Game::new(w, h, 20);
        assert!(g.fruit.x >= 0 && g.fruit.x < w as i32);
        assert!(g.fruit.y >= 0 && g.fruit.y < h as i32);
        assert!(!occupied_cells(&g).contains(&g.fruit));
    }
}

#[test]
fn relocated_fruit_avoids_snakes() {
    for (w, h) in [(10u32, 10u32), (2, 2), (40, 30)] {
        let mut g = Game::new(w, h, 20);
        for _ in 0..50 {
            g.new_fruit();
            assert!(g.fruit.x >= 0 && g.fruit.x < w as i32);
            assert!(g.fruit.y >= 0 && g.fruit.y < h as i32);
            assert!(!occupied_cells(&g).contains(&g.fruit));
        }
    }
}

#[test]
fn world_run_hits_wall_and_dies() {
    let s = Snake::new(Point::new(5, 5), Move::Right, 1_000_000);
    let mut g = Game::with_snake(s, 10, 10, 20);
    g.update(1_000_000);
    assert_eq!(g.snakes[0].get_head(), Point::new(6, 5));
    assert!(!g.snakes[0].dead);
    for _ in 0..9 {
        g.update(1_000_000);
    }
    // the head left the grid at x = 10 and the collision check flagged the
    // snake dead; dead snakes still tick, so the head kept moving
    assert!(g.snakes[0].dead);
    assert_eq!(g.snakes[0].get_head(), Point::new(15, 5));
}

#[test]
fn eating_grows_and_scores() {
    // A 1x5 column with the snake filling all cells but (0, 4): the fruit
    // has exactly one place to go.
    let s = Snake::new(Point::new(0, 3), Move::Down, 500_000);
    let mut g = Game::with_snake(s, 1, 5, 20);
    assert_eq!(g.fruit, Point::new(0, 4));
    g.update(500_000);
    assert_eq!(g.snakes[0].get_head(), Point::new(0, 4));
    assert_eq!(g.snakes[0].score, INITIAL_SCORE + FRUIT_SCORE);
    assert_eq!(g.snakes[0].tail_to_points().len(), 4);
    assert!(!g.snakes[0].dead);
}

#[test]
fn input_reversal_ignored_by_world() {
    let s = Snake::new(Point::new(5, 5), Move::Right, 500_000);
    let mut g = Game::with_snake(s, 20, 20, 10);
    g.handle_input(Move::Left);
    g.update(500_000);
    assert_eq!(g.snakes[0].get_head(), Point::new(6, 5));
    g.handle_input(Move::Down);
    g.update(500_000);
    assert_eq!(g.snakes[0].get_head(), Point::new(6, 6));
}

#[test]
fn circling_into_own_body_dies() {
    let mut s = Snake::new(Point::new(5, 5), Move::Right, 500_000);
    s.add_segment();
    s.add_segment();
    let mut g = Game::with_snake(s, 20, 20, 10);
    g.update(500_000); // head (6, 5)
    g.handle_input(Move::Down);
    g.update(500_000); // head (6, 6)
    g.handle_input(Move::Left);
    g.update(500_000); // head (5, 6)
    g.handle_input(Move::Up);
    g.update(500_000); // head (5, 5): back onto its own body
    assert!(g.snakes[0].dead);
}

#[test]
fn frozen_dead_snake_stops_ticking() {
    let s = Snake::new(Point::new(5, 5), Move::Right, 1_000_000);
    let mut g = Game::with_snake(s, 10, 10, 20);
    g.tick_dead = false;
    for _ in 0..5 {
        g.update(1_000_000);
    }
    assert!(g.snakes[0].dead);
    assert_eq!(g.snakes[0].get_head(), Point::new(10, 5));
    g.update(1_000_000);
    // with tick-while-dead switched off the snake is frozen where it died
    assert_eq!(g.snakes[0].get_head(), Point::new(10, 5));
}
