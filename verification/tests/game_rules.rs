use snake_game::game::{Event, Game, INITIAL_SPEED, SPEED_STEP};
use snake_game::grid::{Direction, Key, Position, CELL_SIZE, GRID_HEIGHT, GRID_WIDTH};
use snake_game::grid::{WINDOW_HEIGHT, WINDOW_WIDTH};
use snake_game::score::Score;

fn cells(points: &[(i32, i32)]) -> Vec<Position> {
    points.iter().map(|&(x, y)| Position { x, y }).collect()
}

fn game_with_food(x: i32, y: i32) -> Game {
    match Game::with_food(Position { x, y }) {
        Some(game) => game,
        None => panic!("({}, {}) is no free cell", x, y),
    }
}

/// The key that keeps the head on a closed tour through every cell: down
/// the even columns and up the odd ones between rows 1 and 23, and back
/// along row 0.
fn tour_key(head: Position) -> Key {
    if head.y == 0 {
        if head.x > 0 { Key::Left } else { Key::Down }
    } else if head.x % 2 == 0 {
        if head.y < 23 { Key::Down } else { Key::Right }
    } else if head.y > 1 || head.x == 31 {
        Key::Up
    } else {
        Key::Right
    }
}

#[test]
fn grid_is_the_canvas_in_cells() {
    assert_eq!(GRID_WIDTH, 32);
    assert_eq!(GRID_HEIGHT, 24);
    assert_eq!(WINDOW_WIDTH, 640);
    assert_eq!(WINDOW_HEIGHT, 480);
    assert_eq!(CELL_SIZE, 20);
}

#[test]
fn new_game_starts_fresh() {
    let game = Game::new();
    assert_eq!(game.snake().segments(), cells(&[(5, 5), (5, 6), (5, 7)]));
    assert_eq!(game.snake().direction(), Direction::Right);
    assert_eq!(game.score(), 0);
    assert_eq!(game.get_speed(), 10);
    assert!(!game.is_game_over());
    assert!(game.food().is_in_grid());
    assert!(!game.snake().occupies(game.food()));
}

#[test]
fn new_games_put_food_on_varying_free_cells() {
    let first = Game::new().food();
    let mut differs = false;
    for _ in 0..200 {
        let game = Game::new();
        let food = game.food();
        assert!(food.is_in_grid());
        assert!(!game.snake().occupies(food));
        if food != first {
            differs = true;
        }
    }
    assert!(differs);
}

#[test]
fn generate_food_avoids_the_snake() {
    let game = game_with_food(10, 10);
    for _ in 0..500 {
        match game.generate_food() {
            Some(food) => {
                assert!(food.is_in_grid());
                assert!(!game.snake().occupies(food));
            }
            None => panic!("a grid with three cells taken has free cells"),
        }
    }
}

#[test]
fn with_food_refuses_taken_and_outside_cells() {
    assert!(Game::with_food(Position { x: 5, y: 5 }).is_none());
    assert!(Game::with_food(Position { x: 5, y: 6 }).is_none());
    assert!(Game::with_food(Position { x: 5, y: 7 }).is_none());
    assert!(Game::with_food(Position { x: 32, y: 0 }).is_none());
    assert!(Game::with_food(Position { x: 0, y: -1 }).is_none());
    let game = game_with_food(6, 5);
    assert_eq!(game.food(), Position { x: 6, y: 5 });
    assert_eq!(game.score(), 0);
    assert_eq!(game.get_speed(), INITIAL_SPEED);
    assert!(!game.is_game_over());
}

#[test]
fn first_tick_without_food_ahead() {
    let mut game = game_with_food(20, 20);
    let event = game.update();
    assert_eq!(event, Event::Moved);
    assert_eq!(game.snake().segments(), cells(&[(6, 5), (5, 5), (5, 6)]));
    assert_eq!(game.score(), 0);
    assert_eq!(game.get_speed(), 10);
    assert_eq!(game.food(), Position { x: 20, y: 20 });
    assert!(!game.is_game_over());
}

#[test]
fn running_off_the_grid_ends_the_game_for_good() {
    let mut game = game_with_food(20, 20);
    for _ in 0..26 {
        assert_eq!(game.update(), Event::Moved);
    }
    assert_eq!(game.snake().head(), Position { x: 31, y: 5 });
    assert!(!game.is_game_over());
    assert_eq!(game.update(), Event::GameOver);
    assert!(game.is_game_over());
    let body = game.snake().segments();
    assert_eq!(body, cells(&[(32, 5), (31, 5), (30, 5)]));
    for _ in 0..5 {
        assert_eq!(game.update(), Event::Idle);
        assert_eq!(game.snake().segments(), body);
        assert!(game.is_game_over());
        assert_eq!(game.score(), 0);
        assert_eq!(game.food(), Position { x: 20, y: 20 });
    }
}

#[test]
fn finished_game_ignores_keys() {
    let mut game = game_with_food(20, 20);
    while !game.is_game_over() {
        game.update();
    }
    game.key_press(Key::Up);
    assert_eq!(game.snake().direction(), Direction::Right);
    game.key_press(Key::Space);
    assert!(!game.snake().has_jumped());
}

#[test]
fn eating_grows_scores_and_replaces_the_food() {
    let mut game = game_with_food(6, 5);
    let event = game.update();
    assert_eq!(event, Event::Ate);
    assert_eq!(game.snake().segments(), cells(&[(6, 5), (5, 5), (5, 6), (5, 6)]));
    assert_eq!(game.snake().len(), 4);
    assert_eq!(game.score(), 100);
    assert_eq!(game.get_speed(), 10);
    assert!(!game.is_game_over());
    assert!(game.food().is_in_grid());
    assert!(!game.snake().occupies(game.food()));
    assert_ne!(game.food(), Position { x: 6, y: 5 });
}

#[test]
fn key_press_turns_but_never_reverses() {
    let mut game = game_with_food(20, 20);
    game.key_press(Key::Left);
    assert_eq!(game.snake().direction(), Direction::Right);
    game.key_press(Key::Up);
    assert_eq!(game.snake().direction(), Direction::Up);
    game.key_press(Key::Down);
    assert_eq!(game.snake().direction(), Direction::Up);
    game.key_press(Key::Other);
    assert_eq!(game.snake().direction(), Direction::Up);
    assert_eq!(game.update(), Event::Moved);
    assert_eq!(game.snake().segments(), cells(&[(5, 4), (5, 5), (5, 6)]));
}

#[test]
fn turning_down_at_the_start_hits_the_body() {
    let mut game = game_with_food(20, 20);
    game.key_press(Key::Down);
    assert_eq!(game.snake().direction(), Direction::Down);
    assert_eq!(game.update(), Event::GameOver);
    assert!(game.is_game_over());
    assert_eq!(game.snake().segments(), cells(&[(5, 6), (5, 5), (5, 6)]));
}

#[test]
fn turning_back_into_the_body_ends_the_game() {
    let mut game = game_with_food(20, 20);
    game.key_press(Key::Space);
    assert_eq!(game.update(), Event::Moved);
    game.key_press(Key::Space);
    assert_eq!(game.update(), Event::Moved);
    assert_eq!(game.snake().len(), 5);
    game.key_press(Key::Down);
    assert_eq!(game.update(), Event::Moved);
    game.key_press(Key::Left);
    assert_eq!(game.update(), Event::Moved);
    game.key_press(Key::Up);
    assert_eq!(game.update(), Event::GameOver);
    assert!(game.is_game_over());
    assert_eq!(game.score(), 0);
}

#[test]
fn jump_key_keeps_the_tail_for_one_tick() {
    let mut game = game_with_food(20, 20);
    game.key_press(Key::Space);
    assert!(game.snake().has_jumped());
    assert_eq!(game.update(), Event::Moved);
    assert_eq!(game.snake().segments(), cells(&[(6, 5), (5, 5), (5, 6), (5, 7)]));
    assert_eq!(game.update(), Event::Moved);
    assert_eq!(game.snake().segments(), cells(&[(7, 5), (6, 5), (5, 5), (5, 6)]));
    assert_eq!(game.score(), 0);
}

#[test]
fn score_and_speed_follow_the_food_eaten() {
    let mut game = Game::new();
    let mut eaten: u32 = 0;
    let mut ticks = 0;
    while eaten < 25 {
        ticks += 1;
        assert!(ticks <= 25 * 768);
        game.key_press(tour_key(game.snake().head()));
        let score_before = game.score();
        let speed_before = game.get_speed();
        let len_before = game.snake().len();
        let event = game.update();
        assert!(!game.is_game_over());
        if event == Event::Ate {
            eaten += 1;
            assert_eq!(game.score(), score_before + 100);
            assert_eq!(game.snake().len(), len_before + 1);
            if game.score() % 1000 == 0 {
                assert_eq!(game.get_speed(), speed_before + SPEED_STEP);
            } else {
                assert_eq!(game.get_speed(), speed_before);
            }
        } else {
            assert_eq!(event, Event::Moved);
            assert_eq!(game.score(), score_before);
            assert_eq!(game.get_speed(), speed_before);
            assert_eq!(game.snake().len(), len_before);
        }
        assert_eq!(game.score(), 100 * eaten);
        assert_eq!(game.get_speed(), 10 + 2 * (game.score() / 1000));
        assert!(game.food().is_in_grid());
        assert!(!game.snake().occupies(game.food()));
        if eaten == 9 {
            assert_eq!(game.get_speed(), 10);
        }
        if eaten == 10 {
            assert_eq!(game.score(), 1000);
            assert_eq!(game.get_speed(), 12);
        }
    }
    assert_eq!(game.score(), 2500);
    assert_eq!(game.get_speed(), 14);
    assert_eq!(game.snake().len(), 28);
}

#[test]
fn covering_the_grid_ends_the_game() {
    let mut game = Game::new();
    let mut eaten: u32 = 0;
    for tick in 1..=765 {
        assert!(!game.is_game_over());
        game.key_press(tour_key(game.snake().head()));
        game.key_press(Key::Space);
        let event = game.update();
        if event == Event::Ate {
            eaten += 1;
        } else {
            assert_eq!(event, Event::Moved);
        }
        if tick < 765 {
            assert!(!game.is_game_over());
            assert!(!game.snake().occupies(game.food()));
        } else {
            assert_eq!(event, Event::Ate);
        }
    }
    assert!(game.is_game_over());
    assert!(eaten >= 1);
    assert_eq!(game.score(), 100 * eaten);
    assert_eq!(game.get_speed(), 10 + 2 * (game.score() / 1000));
    assert_eq!(game.snake().first_free_cell(), None);
    assert_eq!(game.generate_food(), None);
    assert_eq!(game.update(), Event::Idle);
}

#[test]
fn score_counts_in_hundreds() {
    let mut score = Score::new();
    assert_eq!(score.get(), 0);
    score.increase();
    assert_eq!(score.get(), 100);
    for _ in 0..9 {
        score.increase();
    }
    assert_eq!(score.get(), 1000);
}

#[test]
fn score_text_names_the_points() {
    let mut score = Score::new();
    assert_eq!(score.text(false), "Score: 0");
    assert_eq!(score.text(true), "Game Over - Score: 0");
    score.increase();
    assert_eq!(score.text(false), "Score: 100");
    assert_eq!(score.text(true), "Game Over - Score: 100");
    for _ in 0..12 {
        score.increase();
    }
    assert_eq!(score.text(false), "Score: 1300");
    assert_eq!(score.text(false), format!("Score: {}", score.get()));
}

#[test]
fn game_score_text_follows_the_game() {
    let mut game = game_with_food(6, 5);
    assert_eq!(game.score_text(), "Score: 0");
    assert_eq!(game.update(), Event::Ate);
    assert_eq!(game.score_text(), "Score: 100");
    while !game.is_game_over() {
        game.update();
    }
    assert_eq!(game.score_text(), format!("Game Over - Score: {}", game.score()));
}

#[test]
fn tick_is_due_after_the_threshold() {
    let game = game_with_food(20, 20);
    assert_eq!(game.get_speed(), 10);
    assert!(!game.is_tick_due(0));
    assert!(!game.is_tick_due(99_999));
    assert!(!game.is_tick_due(100_000));
    assert!(game.is_tick_due(100_001));
    assert!(game.is_tick_due(u64::MAX));
}
