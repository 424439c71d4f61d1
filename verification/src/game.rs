//! The game: a snake and its food, advanced together one tick at a time.
use vstd::prelude::*;
use crate::direction::Direction;
use crate::food::Food;
use crate::food::FoodModel;
use crate::food::FOOD_SIZE;
use crate::render::Frame;
use crate::render::depicts;
use crate::render::render;
use crate::snake::Snake;
use crate::snake::SnakeModel;
use crate::snake::initial_snake;
use crate::snake::lemma_step_length;

verus! {

/// The pause between two ticks, in milliseconds.
pub const TICK_INTERVAL_MS: u64 = 300;

/// How close, on each axis, the head must come to the food to eat it: `0.001`.
pub const COLLISION_TOLERANCE: i64 = 1_000;

/// Whether the step that `snake` is about to take brings its head onto `food`.
pub open spec fn meets_food(snake: SnakeModel, food: FoodModel) -> bool {
    snake.advanced().head().position.near(food.position, COLLISION_TOLERANCE as int)
}

/// The snake after one tick next to `food`: advanced by one step, and due to keep its
/// tail on the following step exactly if this step brought its head onto the food.
pub open spec fn snake_after_tick(snake: SnakeModel, food: FoodModel) -> SnakeModel {
    SnakeModel { pop_next_update: !meets_food(snake, food), ..snake.advanced() }
}

/// Whether the head of `snake` lies on `food`: within [`COLLISION_TOLERANCE`] of it
/// on each axis.
pub open spec fn head_on_food(snake: SnakeModel, food: FoodModel) -> bool {
    snake.head().position.near(food.position, COLLISION_TOLERANCE as int)
}

/// Lets the snake eat: if its head lies on the food, the food moves to a grid point
/// drawn at random and the snake is made to grow on its next step. Otherwise nothing
/// changes.
///
/// This is the second half of a tick, to be run right after the snake has advanced.
pub fn check_collision(snake: &mut Snake, food: &mut Food)
    requires
        old(snake).wf(),
        old(food).wf(),
    ensures
        final(snake).wf(),
        final(food).wf(),
        final(snake)@ == (SnakeModel {
            pop_next_update: old(snake)@.pop_next_update && !head_on_food(
                old(snake)@,
                old(food)@,
            ),
            ..old(snake)@
        }),
        final(food)@.body_size == old(food)@.body_size,
        final(food)@.on_grid(),
        !head_on_food(old(snake)@, old(food)@) ==> final(food)@ == old(food)@,
{
    if snake.head().position.approx_eq(&food.position(), COLLISION_TOLERANCE) {
        food.update_position();
        snake.grow_on_next_update();
    }
}

/// Runs one tick: advances the snake by one step and, if its head then lies on the
/// food, moves the food to a grid point drawn at random and makes the snake grow on
/// its next step.
pub fn tick(snake: &mut Snake, food: &mut Food)
    requires
        old(snake).wf(),
        old(food).wf(),
    ensures
        final(snake).wf(),
        final(food).wf(),
        final(snake)@ == snake_after_tick(old(snake)@, old(food)@),
        final(food)@.body_size == old(food)@.body_size,
        final(food)@.on_grid(),
        !meets_food(old(snake)@, old(food)@) ==> final(food)@ == old(food)@,
{
    snake.update_position();
    check_collision(snake, food);
}

/// A tick that finds no growth pending leaves the length of the body unchanged.
pub proof fn lemma_tick_keeps_length(snake: SnakeModel, food: FoodModel)
    requires
        snake.wf(),
        snake.pop_next_update,
    ensures
        snake_after_tick(snake, food).wf(),
        snake_after_tick(snake, food).body.len() == snake.body.len(),
{
    lemma_step_length(snake);
}

/// After a tick on which the head did not reach the food, the following tick leaves
/// the length of the body unchanged, wherever the food then lies.
pub proof fn lemma_no_collision_keeps_length(
    snake: SnakeModel,
    food: FoodModel,
    next_food: FoodModel,
)
    requires
        snake.wf(),
        !meets_food(snake, food),
    ensures
        snake_after_tick(snake_after_tick(snake, food), next_food).body.len() == snake_after_tick(
            snake,
            food,
        ).body.len(),
{
    lemma_step_length(snake);
    lemma_step_length(snake_after_tick(snake, food));
}

/// After a tick on which the head reached the food, the following tick lengthens the
/// body by exactly one segment, wherever the food then lies.
pub proof fn lemma_collision_grows_on_following_tick(
    snake: SnakeModel,
    food: FoodModel,
    next_food: FoodModel,
)
    requires
        snake.wf(),
        meets_food(snake, food),
    ensures
        snake_after_tick(snake_after_tick(snake, food), next_food).body.len() == snake_after_tick(
            snake,
            food,
        ).body.len() + 1,
{
    lemma_step_length(snake);
    lemma_step_length(snake_after_tick(snake, food));
}

/// The mathematical model of a [`SnakeGame`].
pub struct GameModel {
    pub snake: SnakeModel,
    pub food: FoodModel,
}

impl GameModel {
    /// The snake and the food are both well formed.
    pub open spec fn wf(self) -> bool {
        self.snake.wf() && self.food.wf()
    }
}

/// A snake together with its food.
pub struct SnakeGame {
    snake: Snake,
    food: Food,
}

impl View for SnakeGame {
    type V = GameModel;

    closed spec fn view(&self) -> GameModel {
        GameModel { snake: self.snake@, food: self.food@ }
    }
}

impl SnakeGame {
    /// The invariant of a game: its model is well formed.
    pub open spec fn wf(&self) -> bool {
        self@.wf()
    }

    /// Starts a game: the initial snake, and food at a grid point drawn at random.
    pub fn new() -> (game: SnakeGame)
        ensures
            game.wf(),
            game@.snake == initial_snake(),
            game@.food.body_size == FOOD_SIZE,
    {
        SnakeGame { snake: Snake::new(), food: Food::new() }
    }

    /// Puts a snake and its food together.
    pub fn from_parts(snake: Snake, food: Food) -> (game: SnakeGame)
        ensures
            game@ == (GameModel { snake: snake@, food: food@ }),
    {
        SnakeGame { snake, food }
    }

    /// The snake in play.
    pub fn snake(&self) -> (snake: &Snake)
        ensures
            snake@ == self@.snake,
    {
        &self.snake
    }

    /// The food in play.
    pub fn food(&self) -> (food: &Food)
        ensures
            food@ == self@.food,
    {
        &self.food
    }

    /// Takes the player's key press: the snake is asked to head in `direction`.
    ///
    /// Nothing else changes; the request is weighed when the snake next advances.
    pub fn handle_key_press(&mut self, direction: Direction)
        ensures
            final(self)@.snake == (SnakeModel { requested_direction: direction, ..old(self)@.snake }),
            final(self)@.food == old(self)@.food,
    {
        self.snake.set_requested_direction(direction);
    }

    /// Runs one tick of the game; see [`tick`].
    pub fn tick(&mut self)
        requires
            old(self).wf(),
        ensures
            final(self).wf(),
            final(self)@.snake == snake_after_tick(old(self)@.snake, old(self)@.food),
            final(self)@.food.body_size == old(self)@.food.body_size,
            final(self)@.food.on_grid(),
            !meets_food(old(self)@.snake, old(self)@.food) ==> final(self)@.food == old(self)@.food,
    {
        tick(&mut self.snake, &mut self.food);
    }

    /// Works out the frame that shows the game in a window `win_height` high and
    /// `win_width` wide; see [`render`].
    pub fn render(&self, win_height: i64, win_width: i64) -> (frame: Frame)
        requires
            self.wf(),
            0 <= win_height,
            0 <= win_width,
        ensures
            depicts(frame, self@.snake, self@.food, win_height as int, win_width as int),
    {
        render(&self.snake, &self.food, win_height, win_width)
    }
}

} // verus!
