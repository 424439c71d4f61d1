use snake::direction::Direction;
use snake::food::Food;
use snake::game::check_collision;
use snake::game::tick;
use snake::game::SnakeGame;
use snake::game::COLLISION_TOLERANCE;
use snake::geometry::Position;
use snake::snake::Snake;

fn on_grid(position: Position) -> bool {
    position.x % 100_000 == 0
        && position.y % 100_000 == 0
        && -1_000_000 <= position.x
        && position.x <= 900_000
        && -1_000_000 <= position.y
        && position.y <= 900_000
}

#[test]
fn tolerance_is_a_thousandth() {
    assert_eq!(COLLISION_TOLERANCE, 1_000);
}

#[test]
fn tick_without_collision_keeps_length_and_food() {
    let mut snake = Snake::new();
    let mut food = Food::at(5, 5);
    let mut round: i32 = 0;
    while round < 8 {
        tick(&mut snake, &mut food);
        assert_eq!(snake.len(), 3);
        assert!(snake.pop_next_update());
        assert_eq!(food.position(), Position { x: 500_000, y: 500_000 });
        round += 1;
    }
    assert_eq!(snake.head().position, Position { x: 0, y: 800_000 });
}

#[test]
fn collision_grows_the_snake_on_the_following_tick() {
    let mut snake = Snake::new();
    let mut food = Food::at(0, 1);
    // the head steps onto the food: the length is still 3
    tick(&mut snake, &mut food);
    assert_eq!(snake.head().position, Position { x: 0, y: 100_000 });
    assert_eq!(snake.len(), 3);
    assert!(!snake.pop_next_update());
    assert!(on_grid(food.position()));
    assert_eq!(food.body_size(), 100_000);
    // keep the food out of the way of the next steps
    food.place(-5, -5);
    tick(&mut snake, &mut food);
    assert_eq!(snake.len(), 4);
    assert!(snake.pop_next_update());
    assert_eq!(snake.segment(3).position, Position { x: 0, y: -100_000 });
    tick(&mut snake, &mut food);
    assert_eq!(snake.len(), 4);
    assert_eq!(food.position(), Position { x: -500_000, y: -500_000 });
}

#[test]
fn two_collisions_in_a_row_grow_the_snake_twice() {
    let mut snake = Snake::new();
    let mut food = Food::at(0, 1);
    tick(&mut snake, &mut food);
    assert_eq!(snake.len(), 3);
    food.place(0, 2);
    tick(&mut snake, &mut food);
    // grown by the first meal, and due to grow again by the second
    assert_eq!(snake.len(), 4);
    assert!(!snake.pop_next_update());
    food.place(-5, -5);
    tick(&mut snake, &mut food);
    assert_eq!(snake.len(), 5);
    assert!(snake.pop_next_update());
    tick(&mut snake, &mut food);
    assert_eq!(snake.len(), 5);
}

#[test]
fn food_under_the_body_is_not_eaten() {
    // the food lies under the second segment; only the head eats
    let mut snake = Snake::new();
    let mut food = Food::at(0, -1);
    tick(&mut snake, &mut food);
    assert!(snake.pop_next_update());
    assert_eq!(food.position(), Position { x: 0, y: -100_000 });
    tick(&mut snake, &mut food);
    assert_eq!(snake.len(), 3);
}

#[test]
fn food_on_the_wall_is_eaten_by_a_clamped_head() {
    let mut snake = Snake::new();
    snake.set_requested_direction(Direction::Left);
    let mut food = Food::at(-10, 0);
    let mut round: i32 = 0;
    while round < 9 {
        tick(&mut snake, &mut food);
        assert!(snake.pop_next_update());
        round += 1;
    }
    assert_eq!(snake.head().position, Position { x: -900_000, y: 0 });
    tick(&mut snake, &mut food);
    assert_eq!(snake.head().position, Position { x: -1_000_000, y: 0 });
    assert!(!snake.pop_next_update());
}

#[test]
fn new_game_starts_with_the_initial_snake_and_food_on_the_grid() {
    let game = SnakeGame::new();
    assert_eq!(game.snake().len(), 3);
    assert_eq!(game.snake().head().position, Position { x: 0, y: 0 });
    assert_eq!(game.snake().head().direction, Direction::Up);
    assert_eq!(game.snake().requested_direction(), Direction::Up);
    assert_eq!(game.food().body_size(), 100_000);
    assert!(on_grid(game.food().position()));
}

#[test]
fn key_press_only_records_the_request() {
    let mut game = SnakeGame::from_parts(Snake::new(), Food::at(4, 4));
    game.handle_key_press(Direction::Right);
    assert_eq!(game.snake().requested_direction(), Direction::Right);
    assert_eq!(game.snake().head().position, Position { x: 0, y: 0 });
    assert_eq!(game.snake().head().direction, Direction::Up);
    assert_eq!(game.snake().len(), 3);
    assert_eq!(game.food().position(), Position { x: 400_000, y: 400_000 });
    game.tick();
    assert_eq!(game.snake().head().position, Position { x: 100_000, y: 0 });
    assert_eq!(game.snake().head().direction, Direction::Right);
}

#[test]
fn game_tick_eats_and_grows() {
    let mut game = SnakeGame::from_parts(Snake::new(), Food::at(1, 0));
    game.handle_key_press(Direction::Right);
    game.tick();
    assert_eq!(game.snake().len(), 3);
    assert!(!game.snake().pop_next_update());
    assert!(on_grid(game.food().position()));
    game.handle_key_press(Direction::Left);
    game.tick();
    // the reversal was ignored and the snake has grown
    assert_eq!(game.snake().head().position, Position { x: 200_000, y: 0 });
    assert_eq!(game.snake().len(), 4);
}

#[test]
fn collision_check_away_from_the_food_changes_nothing() {
    let mut snake = Snake::new();
    let mut food = Food::at(0, 1);
    check_collision(&mut snake, &mut food);
    assert!(snake.pop_next_update());
    assert_eq!(snake.len(), 3);
    assert_eq!(snake.head().position, Position { x: 0, y: 0 });
    assert_eq!(food.position(), Position { x: 0, y: 100_000 });
}

#[test]
fn collision_check_on_the_food_respawns_it_and_marks_growth() {
    let mut rounds: i32 = 0;
    let mut moved = false;
    while rounds < 50 {
        let mut snake = Snake::new();
        let mut food = Food::at(0, 0);
        check_collision(&mut snake, &mut food);
        assert!(!snake.pop_next_update());
        assert_eq!(snake.len(), 3);
        assert_eq!(snake.head().position, Position { x: 0, y: 0 });
        assert!(on_grid(food.position()));
        if food.position() != (Position { x: 0, y: 0 }) {
            moved = true;
        }
        rounds += 1;
    }
    assert!(moved);
}

#[test]
fn pending_growth_survives_a_collision_check_that_misses() {
    let mut snake = Snake::new();
    snake.grow_on_next_update();
    let mut food = Food::at(7, 7);
    check_collision(&mut snake, &mut food);
    assert!(!snake.pop_next_update());
    assert_eq!(food.position(), Position { x: 700_000, y: 700_000 });
}

#[test]
fn ticks_pause_for_three_hundred_milliseconds() {
    assert_eq!(snake::game::TICK_INTERVAL_MS, 300);
}
