use snek::{
    fruit_colour, random_fruit_colour, status_line, BlockType, Direction, FruitColour, Game, Grid,
    Snake, SnekError, State, Tick, MOVEMENT_INTERVAL, SPAWN_INTERVAL,
};

fn game_at(head: usize) -> Game {
    let mut grid = Grid::new(5, 5);
    let snake = Snake::place(&mut grid, head);
    Game::new(grid, snake)
}

const IDLE: Tick = Tick { fruit: None, moved: false, over: None };

#[test]
fn intervals() {
    assert_eq!(MOVEMENT_INTERVAL, 250_000);
    assert_eq!(SPAWN_INTERVAL, 5_000_000);
}

#[test]
fn a_run_waits_for_a_direction() {
    let mut game = game_at(12);
    assert_eq!(game.state(), State::Start);
    assert_eq!(game.tick_with(1_000_000, 0), IDLE);
    assert_eq!(game.state(), State::Start);
    assert_eq!(game.snake().head(), 12);
    assert_eq!(game.movement_time(), 1_000_000);
    assert_eq!(game.spawn_time(), 1_000_000);
    assert_eq!(game.turn(Direction::Right), Ok(()));
    assert_eq!(game.tick_with(10, 0), IDLE);
    assert_eq!(game.state(), State::InProgress);
    assert_eq!(game.snake().head(), 12);
}

#[test]
fn a_move_fires_every_quarter_second() {
    let mut game = game_at(10);
    game.turn(Direction::Right).unwrap();
    game.tick_with(0, 0);
    assert_eq!(game.state(), State::InProgress);
    assert_eq!(game.tick_with(249_999, 0), IDLE);
    assert_eq!(game.snake().head(), 10);
    assert_eq!(game.tick_with(1, 0), Tick { fruit: None, moved: true, over: None });
    assert_eq!(game.snake().head(), 11);
    assert_eq!(game.movement_time(), 0);
    assert_eq!(game.spawn_time(), 250_000);
    assert_eq!(game.tick_with(100_000, 0), IDLE);
    assert_eq!(game.movement_time(), 100_000);
    assert_eq!(game.tick_with(400_000, 0), Tick { fruit: None, moved: true, over: None });
    assert_eq!(game.snake().head(), 12);
    assert_eq!(game.grid().kind(12), BlockType::OccupiedSnake);
    assert_eq!(game.grid().kind(11), BlockType::Vacant);
}

#[test]
fn a_fruit_arrives_every_five_seconds() {
    let mut game = game_at(12);
    game.turn(Direction::Up).unwrap();
    game.tick_with(0, 0);
    assert_eq!(game.tick_with(200_000, 3), IDLE);
    assert_eq!(game.tick_with(4_800_000, 3), Tick { fruit: Some(3), moved: true, over: None });
    assert_eq!(game.grid().kind(3), BlockType::OccupiedFruit);
    assert_eq!(game.spawn_time(), 0);
    assert_eq!(game.movement_time(), 0);
    assert_eq!(game.snake().head(), 7);
}

#[test]
fn a_fruit_that_arrives_ahead_is_eaten_on_the_same_tick() {
    let mut game = game_at(12);
    game.turn(Direction::Right).unwrap();
    game.tick_with(0, 0);
    assert_eq!(game.tick_with(5_000_000, 12), Tick { fruit: Some(13), moved: true, over: None });
    assert_eq!(game.snake().head(), 13);
    assert_eq!(game.snake().body(), &vec![12]);
    assert!(game.snake().sits_on(game.grid()));
    assert_eq!(game.grid().kind(12), BlockType::OccupiedSnake);
    assert_eq!(game.grid().kind(13), BlockType::OccupiedSnake);
}

#[test]
fn a_failed_move_ends_the_run() {
    let mut game = game_at(10);
    game.turn(Direction::Left).unwrap();
    game.tick_with(0, 0);
    assert_eq!(game.tick_with(250_000, 0), IDLE);
    assert_eq!(game.state(), State::Error(SnekError::OutOfBounds));
    assert_eq!(game.snake().head(), 10);
    assert_eq!(
        game.tick_with(250_000, 0),
        Tick { fruit: None, moved: false, over: Some(SnekError::OutOfBounds) }
    );
    assert_eq!(game.state(), State::End);
    assert_eq!(game.tick_with(10_000_000, 0), IDLE);
    assert_eq!(game.state(), State::End);
    assert_eq!(game.snake().head(), 10);
    assert_eq!(game.grid().kind(10), BlockType::OccupiedSnake);
    assert_eq!((0..25).filter(|&p| game.grid().kind(p) == BlockType::Vacant).count(), 24);
}

#[test]
fn a_refused_turn_does_not_end_the_run() {
    let mut game = game_at(12);
    game.turn(Direction::Right).unwrap();
    game.tick_with(0, 0);
    assert_eq!(game.turn(Direction::Left), Err(SnekError::Motor(Direction::Left)));
    assert_eq!(game.state(), State::InProgress);
    assert_eq!(game.snake().direction(), Some(Direction::Right));
    assert_eq!(game.tick_with(250_000, 0), Tick { fruit: None, moved: true, over: None });
    assert_eq!(game.snake().head(), 13);
}

#[test]
fn timers_stop_at_the_largest_value() {
    let mut game = game_at(12);
    game.tick_with(u64::MAX, 0);
    game.tick_with(5, 0);
    assert_eq!(game.movement_time(), u64::MAX);
    assert_eq!(game.spawn_time(), u64::MAX);
    assert!(!game.spawn_due(0));
    game.turn(Direction::Down).unwrap();
    game.tick_with(0, 0);
    assert!(game.spawn_due(0));
}

#[test]
fn a_random_tick_moves_and_brings_a_fruit() {
    let mut game = game_at(12);
    game.turn(Direction::Down).unwrap();
    game.tick(0);
    assert_eq!(game.state(), State::InProgress);
    let tick = game.tick(5_000_000);
    assert!(tick.moved);
    assert_eq!(tick.over, None);
    let p = tick.fruit.unwrap();
    assert!(p < 25 && p != 12);
    assert_eq!(game.snake().head(), 17);
    if p == 17 {
        assert_eq!(game.snake().body(), &vec![12]);
    } else {
        assert_eq!(game.grid().kind(p), BlockType::OccupiedFruit);
        assert!(game.snake().body().is_empty());
    }
}

#[test]
fn messages() {
    assert_eq!(SnekError::Motor(Direction::Up).message(), "cannot turn the opposite direction");
    assert_eq!(SnekError::Collision.message(), "collided with the snake's own body");
    assert_eq!(SnekError::OutOfBounds.message(), "cannot go outside the eating-ground");
}

#[test]
fn status_lines() {
    assert_eq!(
        status_line("Snek", &SnekError::Motor(Direction::Left), false),
        "Snek: cannot turn the opposite direction"
    );
    assert_eq!(
        status_line("Snek", &SnekError::Collision, true),
        "Snek: collided with the snake's own body - over!"
    );
    assert_eq!(
        status_line("Snek", &SnekError::OutOfBounds, true),
        "Snek: cannot go outside the eating-ground - over!"
    );
}

#[test]
fn a_started_run_has_a_lone_head() {
    for _ in 0..20 {
        let game = Game::start(19, 15);
        assert_eq!(game.state(), State::Start);
        assert_eq!(game.movement_time(), 0);
        assert_eq!(game.spawn_time(), 0);
        assert_eq!(game.grid().horizontal(), 19);
        assert_eq!(game.grid().vertical(), 15);
        assert_eq!(game.grid().len(), 285);
        let head = game.snake().head();
        assert!(head < 285);
        assert!(game.snake().body().is_empty());
        assert_eq!(game.snake().direction(), None);
        for p in 0..285 {
            let expected = if p == head { BlockType::OccupiedSnake } else { BlockType::Vacant };
            assert_eq!(game.grid().kind(p), expected);
        }
    }
}

#[test]
fn fruit_colours_by_number() {
    assert_eq!(fruit_colour(0), FruitColour::Red);
    assert_eq!(fruit_colour(1), FruitColour::Blue);
    assert_eq!(fruit_colour(2), FruitColour::Orange);
    assert_eq!(fruit_colour(3), FruitColour::Red);
    assert_eq!(fruit_colour(usize::MAX), fruit_colour(usize::MAX % 3));
}

#[test]
fn fruit_colour_channels() {
    assert_eq!(FruitColour::Red.rgba(), (255, 0, 0, 255));
    assert_eq!(FruitColour::Blue.rgba(), (0, 0, 255, 255));
    assert_eq!(FruitColour::Orange.rgba(), (0xFF, 0xA5, 0x00, 0x00));
}

#[test]
fn random_fruit_colours_vary() {
    let first = random_fruit_colour();
    assert!((0..200).any(|_| random_fruit_colour() != first));
}
