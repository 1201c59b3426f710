use snake_game::game::{clear_cell, Game};
use snake_game::grid::{Arena, Direction, Position};

fn fresh(width: u32, height: u32) -> Game {
    Game::new(Arena::new(width, height).unwrap())
}

fn at(x: i32, y: i32) -> Position {
    Position { x, y }
}

#[test]
fn food_on_the_head_cell_is_eaten_at_the_next_check() {
    let mut g = fresh(20, 20);
    g.snake_movement();
    g.place_food(g.head());
    assert_eq!(g.food(), &vec![at(3, 3)]);
    assert!(g.snake_eating());
    assert!(g.food().is_empty());
    assert!(g.growth_pending());
    assert!(g.score_pending());
    assert!(g.snake_growth());
    assert_eq!(g.len(), 3);
    assert!(!g.snake_growth());
    assert_eq!(g.len(), 3);
    assert_eq!(g.update_board(), 1);
    assert_eq!(g.update_board(), 1);
    assert_eq!(g.score(), 1);
}

#[test]
fn food_elsewhere_is_left_alone() {
    let mut g = fresh(20, 20);
    g.place_food(at(3, 3));
    g.place_food(at(4, 2));
    g.place_food(at(2, 3));
    assert!(!g.snake_eating());
    assert_eq!(g.food().len(), 3);
    assert!(!g.growth_pending());
    assert!(!g.score_pending());
    assert!(!g.snake_growth());
    assert_eq!(g.len(), 2);
    assert_eq!(g.update_board(), 0);
}

#[test]
fn eating_needs_the_very_cell() {
    let mut g = fresh(20, 20);
    for cell in [at(2, 2), at(4, 2), at(3, 1), at(3, 3), at(2, 3), at(3, -2), at(-3, 2), at(2, 3)] {
        g.place_food(cell);
    }
    assert!(!g.snake_eating());
    assert_eq!(g.food().len(), 8);
}

#[test]
fn eating_keeps_the_other_food_in_order() {
    let mut g = fresh(20, 20);
    g.place_food(at(1, 1));
    g.place_food(at(3, 2));
    g.place_food(at(9, 9));
    g.place_food(at(3, 2));
    g.place_food(at(5, 5));
    assert!(g.snake_eating());
    assert_eq!(g.food(), &vec![at(1, 1), at(9, 9), at(5, 5)]);
}

#[test]
fn two_foods_on_one_cell_make_one_meal() {
    let mut g = fresh(20, 20);
    g.place_food(at(3, 2));
    g.place_food(at(3, 2));
    assert!(g.snake_eating());
    assert!(g.food().is_empty());
    assert!(g.snake_growth());
    assert!(!g.snake_growth());
    assert_eq!(g.len(), 3);
    assert_eq!(g.update_board(), 1);
    assert_eq!(g.update_board(), 1);
}

#[test]
fn nothing_is_eaten_twice() {
    let mut g = fresh(20, 20);
    g.place_food(at(3, 2));
    assert!(g.snake_eating());
    assert!(!g.snake_eating());
}

#[test]
fn new_segment_lies_where_the_tail_was() {
    let mut g = fresh(20, 20);
    g.turn(Direction::Right);
    g.tick(true);
    g.tick(true);
    assert_eq!(g.segments(), &vec![at(5, 2), at(4, 2)]);
    g.place_food(at(6, 2));
    g.snake_movement();
    assert_eq!(g.last_tail(), at(4, 2));
    g.snake_eating();
    g.snake_growth();
    assert_eq!(g.segments(), &vec![at(6, 2), at(5, 2), at(4, 2)]);
}

#[test]
fn growth_before_any_movement_lands_on_the_start_cell() {
    let mut g = fresh(20, 20);
    g.place_food(at(3, 2));
    g.tick(false);
    assert_eq!(g.segments(), &vec![at(3, 2), at(3, 2), at(3, 2)]);
}

#[test]
fn tick_eats_and_grows_after_moving() {
    let mut g = fresh(20, 20);
    g.place_food(at(3, 3));
    g.tick(true);
    assert_eq!(g.segments(), &vec![at(3, 3), at(3, 2), at(3, 2)]);
    assert!(g.food().is_empty());
    assert!(!g.growth_pending());
    assert!(g.score_pending());
    assert_eq!(g.score(), 0);
    assert_eq!(g.update_board(), 1);
}

#[test]
fn tick_without_movement_still_checks_for_food() {
    let mut g = fresh(20, 20);
    g.tick(true);
    g.place_food(at(3, 3));
    g.tick(false);
    assert_eq!(g.head(), at(3, 3));
    assert_eq!(g.len(), 3);
    assert!(g.food().is_empty());
}

#[test]
fn each_meal_adds_one_segment() {
    for meals in 0..8usize {
        let mut g = fresh(20, 20);
        for _ in 0..meals {
            let ahead = g.head().step(g.heading());
            g.place_food(ahead);
            g.tick(true);
            g.update_board();
        }
        assert_eq!(g.len(), 2 + meals);
        assert_eq!(g.score() as usize, meals);
    }
}

#[test]
fn meals_with_empty_ticks_between_still_count() {
    let mut g = fresh(120, 120);
    let mut meals = 0usize;
    for round in 0..30 {
        if round % 3 == 0 {
            let ahead = g.head().step(g.heading());
            g.place_food(ahead);
            meals += 1;
        }
        g.tick(true);
        g.tick(false);
        assert_eq!(g.len(), 2 + meals);
    }
    assert_eq!(meals, 10);
    assert_eq!(g.len(), 12);
}

#[test]
fn update_board_counts_a_point_once() {
    let mut g = fresh(20, 20);
    assert_eq!(g.update_board(), 0);
    g.place_food(at(3, 2));
    g.snake_eating();
    assert_eq!(g.score(), 0);
    assert_eq!(g.update_board(), 1);
    assert!(!g.score_pending());
    assert_eq!(g.update_board(), 1);
}

#[test]
fn clear_cell_takes_out_every_match() {
    let cells = vec![at(1, 1), at(2, 2), at(1, 1), at(3, 3)];
    let (kept, found) = clear_cell(&cells, at(1, 1));
    assert!(found);
    assert_eq!(kept, vec![at(2, 2), at(3, 3)]);
    let (kept, found) = clear_cell(&cells, at(4, 4));
    assert!(!found);
    assert_eq!(kept, cells);
    let (kept, found) = clear_cell(&Vec::new(), at(0, 0));
    assert!(!found);
    assert!(kept.is_empty());
}
