use snake::direction::Direction;
use snake::food::Food;
use snake::game::SnakeGame;
use snake::geometry::Position;
use snake::render::food_sprite;
use snake::render::render;
use snake::render::segment_role;
use snake::render::segment_sprite;
use snake::render::FoodSprite;
use snake::render::SegmentRole;
use snake::render::SegmentSprite;
use snake::render::TEXTURE_PIXEL_LENGTH;
use snake::snake::BodySegment;
use snake::snake::Snake;

const WINDOW: i64 = 1_000_000_000;

#[test]
fn roles_by_index() {
    assert_eq!(segment_role(0, 3), SegmentRole::Head);
    assert_eq!(segment_role(1, 3), SegmentRole::Body);
    assert_eq!(segment_role(2, 3), SegmentRole::Tail);
    assert_eq!(segment_role(0, 1), SegmentRole::Head);
    assert_eq!(segment_role(1, 2), SegmentRole::Tail);
    assert_eq!(segment_role(7, 9), SegmentRole::Body);
}

#[test]
fn sprite_of_a_segment_heading_up() {
    assert_eq!(TEXTURE_PIXEL_LENGTH, 225_000_000);
    let segment =
        BodySegment { position: Position { x: 400_000, y: -800_000 }, direction: Direction::Up };
    let sprite = segment_sprite(segment, SegmentRole::Body, 100_000, WINDOW, WINDOW);
    assert_eq!(
        sprite,
        SegmentSprite {
            role: SegmentRole::Body,
            x: 700_000_000,
            y: 900_000_000,
            center_dx: -25_000_000,
            center_dy: -25_000_000,
            rotation_degrees: 0,
            pivot_dx: 0,
            pivot_dy: 0,
            scale_x: 222_222,
            scale_y: 222_222,
        }
    );
}

#[test]
fn sprite_turns_and_shifts_with_the_heading() {
    let at = Position { x: 0, y: 0 };
    let right = segment_sprite(
        BodySegment { position: at, direction: Direction::Right },
        SegmentRole::Head,
        100_000,
        WINDOW,
        WINDOW,
    );
    assert_eq!((right.rotation_degrees, right.pivot_dx, right.pivot_dy), (90, 0, -50_000_000));
    let down = segment_sprite(
        BodySegment { position: at, direction: Direction::Down },
        SegmentRole::Head,
        100_000,
        WINDOW,
        WINDOW,
    );
    assert_eq!(
        (down.rotation_degrees, down.pivot_dx, down.pivot_dy),
        (180, -50_000_000, -50_000_000)
    );
    let left = segment_sprite(
        BodySegment { position: at, direction: Direction::Left },
        SegmentRole::Tail,
        100_000,
        WINDOW,
        WINDOW,
    );
    assert_eq!((left.rotation_degrees, left.pivot_dx, left.pivot_dy), (-90, -50_000_000, 0));
    assert_eq!(left.role, SegmentRole::Tail);
}

#[test]
fn sprite_in_a_window_that_is_not_square() {
    // 600 pixels high, 800 pixels wide
    let segment =
        BodySegment { position: Position { x: 500_000, y: 500_000 }, direction: Direction::Down };
    let sprite = segment_sprite(segment, SegmentRole::Head, 100_000, 600_000_000, 800_000_000);
    assert_eq!(
        sprite,
        SegmentSprite {
            role: SegmentRole::Head,
            x: 600_000_000,
            y: 150_000_000,
            center_dx: -20_000_000,
            center_dy: -15_000_000,
            rotation_degrees: 180,
            pivot_dx: -40_000_000,
            pivot_dy: -30_000_000,
            scale_x: 177_777,
            scale_y: 133_333,
        }
    );
}

#[test]
fn sprite_of_the_food() {
    let food = Food::at(3, -4);
    assert_eq!(
        food_sprite(&food, WINDOW, WINDOW),
        FoodSprite {
            x: 650_000_000,
            y: 700_000_000,
            center_dx: -25_000_000,
            center_dy: -25_000_000,
            radius: 25_000_000,
        }
    );
    // the radius follows the height of the window
    assert_eq!(
        food_sprite(&food, 600_000_000, 800_000_000),
        FoodSprite {
            x: 520_000_000,
            y: 420_000_000,
            center_dx: -20_000_000,
            center_dy: -15_000_000,
            radius: 15_000_000,
        }
    );
}

#[test]
fn frame_lists_the_body_from_tail_to_head() {
    let snake = Snake::new();
    let food = Food::at(3, -4);
    let frame = render(&snake, &food, WINDOW, WINDOW);
    assert_eq!(frame.segments.len(), 3);
    let roles: Vec<SegmentRole> = frame.segments.iter().map(|s| s.role).collect();
    assert_eq!(roles, vec![SegmentRole::Tail, SegmentRole::Body, SegmentRole::Head]);
    let rows: Vec<i64> = frame.segments.iter().map(|s| s.y).collect();
    assert_eq!(rows, vec![600_000_000, 550_000_000, 500_000_000]);
    for sprite in frame.segments.iter() {
        assert_eq!(sprite.x, 500_000_000);
        assert_eq!(sprite.rotation_degrees, 0);
        assert_eq!((sprite.center_dx, sprite.center_dy), (-25_000_000, -25_000_000));
        assert_eq!((sprite.scale_x, sprite.scale_y), (222_222, 222_222));
    }
    assert_eq!(frame.food, food_sprite(&food, WINDOW, WINDOW));
}

#[test]
fn frame_shows_each_segment_as_its_own_sprite() {
    let mut snake = Snake::new();
    snake.grow_on_next_update();
    snake.set_requested_direction(Direction::Right);
    snake.update_position();
    snake.set_requested_direction(Direction::Down);
    snake.update_position();
    let food = Food::at(-10, 9);
    let frame = render(&snake, &food, 600_000_000, 800_000_000);
    assert_eq!(frame.segments.len(), snake.len());
    let len: usize = snake.len();
    let mut k: usize = 0;
    while k < len {
        let index: usize = len - 1 - k;
        let expected = segment_sprite(
            snake.segment(index),
            segment_role(index, len),
            snake.body_size(),
            600_000_000,
            800_000_000,
        );
        assert_eq!(frame.segments[k], expected);
        k += 1;
    }
    assert_eq!(frame.segments[len - 1].rotation_degrees, 180);
    assert_eq!(frame.segments[len - 2].rotation_degrees, 90);
    assert_eq!(frame.food.x, 0);
    assert_eq!(frame.food.y, 30_000_000);
}

#[test]
fn frame_in_an_empty_window() {
    let frame = render(&Snake::new(), &Food::at(0, 0), 0, 0);
    assert_eq!(frame.segments.len(), 3);
    for sprite in frame.segments.iter() {
        assert_eq!((sprite.x, sprite.y), (0, 0));
        assert_eq!((sprite.scale_x, sprite.scale_y), (0, 0));
    }
    assert_eq!(frame.food, FoodSprite { x: 0, y: 0, center_dx: 0, center_dy: 0, radius: 0 });
}

#[test]
fn game_renders_its_snake_and_food() {
    let game = SnakeGame::from_parts(Snake::new(), Food::at(2, 2));
    let frame = game.render(WINDOW, WINDOW);
    let direct = render(game.snake(), game.food(), WINDOW, WINDOW);
    assert_eq!(frame.segments, direct.segments);
    assert_eq!(frame.food, direct.food);
    assert_eq!(frame.food.x, 600_000_000);
    assert_eq!(frame.food.y, 400_000_000);
}

#[test]
fn images_are_ordered_head_tail_body() {
    assert_eq!(SegmentRole::Head.texture_index(), 0);
    assert_eq!(SegmentRole::Tail.texture_index(), 1);
    assert_eq!(SegmentRole::Body.texture_index(), 2);
}
