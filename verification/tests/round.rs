use snake_game::game::{Game, FOOD_PERIOD_MS, MOVEMENT_PERIOD_MS};
use snake_game::grid::{Arena, Direction, Position};

fn fresh(width: u32, height: u32) -> Game {
    Game::new(Arena::new(width, height).unwrap())
}

fn at(x: i32, y: i32) -> Position {
    Position { x, y }
}

fn assert_like_new(g: &Game) {
    assert_eq!(g.segments(), &vec![at(3, 2), at(3, 2)]);
    assert_eq!(g.heading(), Direction::Up);
    assert_eq!(g.last_tail(), at(3, 2));
    assert!(g.food().is_empty());
    assert_eq!(g.score(), 0);
    assert!(!g.growth_pending());
    assert!(!g.score_pending());
    assert!(!g.game_over_pending());
}

fn play_until_collision(g: &mut Game) {
    g.place_food(at(3, 3));
    g.place_food(at(10, 10));
    g.tick(true);
    g.update_board();
    assert_eq!(g.score(), 1);
    assert_eq!(g.len(), 3);
    g.turn(Direction::Left);
    for _ in 0..3 {
        g.tick(true);
    }
    assert_eq!(g.head(), at(0, 3));
    assert!(g.snake_movement());
}

#[test]
fn game_over_resets_snake_score_and_food() {
    let mut g = fresh(20, 20);
    play_until_collision(&mut g);
    assert!(g.game_over_pending());
    assert_eq!(g.food().len(), 1);
    assert!(g.game_over());
    assert_eq!(g.len(), 2);
    assert_eq!(g.score(), 0);
    assert!(g.food().is_empty());
    assert_like_new(&g);
}

#[test]
fn game_over_without_a_collision_changes_nothing() {
    let mut g = fresh(20, 20);
    g.place_food(at(3, 3));
    g.tick(true);
    g.update_board();
    g.place_food(at(7, 7));
    assert!(!g.game_over());
    assert_eq!(g.segments(), &vec![at(3, 3), at(3, 2), at(3, 2)]);
    assert_eq!(g.score(), 1);
    assert_eq!(g.food(), &vec![at(7, 7)]);
}

#[test]
fn game_over_twice_is_game_over_once() {
    let mut g = fresh(20, 20);
    play_until_collision(&mut g);
    assert!(g.game_over());
    assert!(!g.game_over());
    assert_like_new(&g);
    assert!(!g.game_over());
    assert_like_new(&g);
}

#[test]
fn tick_ends_the_round_in_the_tick_of_the_collision() {
    let mut g = fresh(20, 20);
    g.place_food(at(15, 15));
    g.turn(Direction::Left);
    for _ in 0..3 {
        g.tick(true);
        assert_eq!(g.food().len(), 1);
    }
    g.tick(true);
    assert_like_new(&g);
}

#[test]
fn game_over_forgets_what_was_requested() {
    let mut g = fresh(20, 20);
    g.turn(Direction::Left);
    for _ in 0..3 {
        g.tick(true);
    }
    g.place_food(at(-1, 3));
    g.place_food(at(-1, 2));
    assert!(g.snake_movement());
    assert!(g.snake_eating());
    assert!(g.score_pending());
    g.game_over();
    assert_like_new(&g);
    assert_eq!(g.update_board(), 0);
    assert!(!g.snake_growth());
    assert_eq!(g.len(), 2);
}

#[test]
fn round_after_a_reset_plays_like_the_first() {
    let mut g = fresh(20, 20);
    play_until_collision(&mut g);
    g.game_over();
    g.tick(true);
    assert_eq!(g.segments(), &vec![at(3, 3), at(3, 2)]);
    g.turn(Direction::Right);
    g.place_food(at(4, 3));
    g.tick(true);
    assert_eq!(g.segments(), &vec![at(4, 3), at(3, 3), at(3, 2)]);
    assert_eq!(g.update_board(), 1);
}

#[test]
fn spawn_snake_replaces_the_snake_only() {
    let mut g = fresh(20, 20);
    g.place_food(at(3, 3));
    g.tick(true);
    g.update_board();
    g.turn(Direction::Right);
    g.tick(true);
    g.place_food(at(9, 9));
    g.spawn_snake();
    assert_eq!(g.segments(), &vec![at(3, 2), at(3, 2)]);
    assert_eq!(g.heading(), Direction::Up);
    assert_eq!(g.last_tail(), at(3, 2));
    assert_eq!(g.score(), 1);
    assert_eq!(g.food(), &vec![at(9, 9)]);
}

#[test]
fn snake_never_has_fewer_than_two_segments() {
    let mut g = fresh(6, 6);
    let turns = [Direction::Right, Direction::Up, Direction::Left, Direction::Down];
    for i in 0..200usize {
        g.turn(turns[(i / 3) % 4]);
        if i % 5 == 0 {
            let ahead = g.head().step(g.heading());
            g.place_food(ahead);
        }
        g.tick(i % 2 == 0);
        g.update_board();
        assert!(g.len() >= 2);
        assert!(!g.game_over_pending());
        for cell in g.segments() {
            assert!(g.arena().contains(*cell));
        }
    }
}

#[test]
fn movement_runs_more_often_than_food_spawns() {
    assert_eq!(MOVEMENT_PERIOD_MS, 100);
    assert_eq!(FOOD_PERIOD_MS, 5000);
}
