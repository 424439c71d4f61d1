//! The food: a morsel that sits on a grid point until the snake reaches it.
use vstd::prelude::*;
use crate::fixed::UNITS_PER_ONE;
use crate::geometry::Point;
use crate::geometry::Position;
use crate::random::random_in_range;

verus! {

/// The edge length of the food of a new game, and the pitch of its grid: `0.1`.
pub const FOOD_SIZE: i64 = 100_000;

/// The smallest grid index on either axis.
pub const GRID_MIN: i32 = -10;

/// One more than the largest grid index on either axis.
pub const GRID_END: i32 = 10;

/// Whether `k` numbers a grid line: one of `-10, -9, ..., 9`.
pub open spec fn is_grid_index(k: int) -> bool {
    GRID_MIN <= k < GRID_END
}

/// The point where grid lines `kx` and `ky` cross, on a grid of pitch `body_size`.
pub open spec fn grid_point(kx: int, ky: int, body_size: int) -> Point {
    Point { x: kx * body_size, y: ky * body_size }
}

/// The mathematical model of a [`Food`].
pub struct FoodModel {
    /// The edge length of the food, which is also the pitch of its grid.
    pub body_size: int,
    /// Where the food lies.
    pub position: Point,
}

impl FoodModel {
    /// Whether the food lies where two grid lines cross.
    pub open spec fn on_grid(self) -> bool {
        exists|kx: int, ky: int|
            is_grid_index(kx) && is_grid_index(ky) && self.position == #[trigger] grid_point(
                kx,
                ky,
                self.body_size,
            )
    }

    /// The food has a size, its grid fits on the plane, and it lies on the grid.
    pub open spec fn wf(self) -> bool {
        &&& 0 < self.body_size
        &&& 10 * self.body_size <= UNITS_PER_ONE
        &&& self.on_grid()
    }
}

/// Every grid point of a grid that fits on the plane lies on the plane.
pub proof fn lemma_grid_point_in_bounds(kx: int, ky: int, body_size: int)
    requires
        is_grid_index(kx),
        is_grid_index(ky),
        0 < body_size,
        10 * body_size <= UNITS_PER_ONE,
    ensures
        grid_point(kx, ky, body_size).in_bounds(),
{
    assert(-10 * body_size <= kx * body_size <= 10 * body_size) by (nonlinear_arith)
        requires
            -10 <= kx < 10,
            0 < body_size,
    ;
    assert(-10 * body_size <= ky * body_size <= 10 * body_size) by (nonlinear_arith)
        requires
            -10 <= ky < 10,
            0 < body_size,
    ;
}

/// Well-formed food lies on the plane.
pub proof fn lemma_food_in_bounds(food: FoodModel)
    requires
        food.wf(),
    ensures
        food.position.in_bounds(),
{
    let (kx, ky) = choose|kx: int, ky: int|
        is_grid_index(kx) && is_grid_index(ky) && food.position == #[trigger] grid_point(
            kx,
            ky,
            food.body_size,
        );
    lemma_grid_point_in_bounds(kx, ky, food.body_size);
}

/// Computes [`grid_point`].
fn grid_position(kx: i32, ky: i32, body_size: i64) -> (position: Position)
    requires
        is_grid_index(kx as int),
        is_grid_index(ky as int),
        0 < body_size,
        10 * body_size <= UNITS_PER_ONE,
    ensures
        position@ == grid_point(kx as int, ky as int, body_size as int),
{
    proof {
        lemma_grid_point_in_bounds(kx as int, ky as int, body_size as int);
    }
    Position { x: (kx as i64) * body_size, y: (ky as i64) * body_size }
}

/// The food on the plane.
///
/// The fields are private: food is made by [`Food::new`] or [`Food::at`] and moved
/// only by the methods below, each of which keeps it well formed.
pub struct Food {
    body_size: i64,
    position: Position,
}

impl View for Food {
    type V = FoodModel;

    closed spec fn view(&self) -> FoodModel {
        FoodModel { body_size: self.body_size as int, position: self.position@ }
    }
}

impl Food {
    /// The invariant of the food: its model is well formed.
    pub open spec fn wf(&self) -> bool {
        self@.wf()
    }

    /// Creates food of size [`FOOD_SIZE`] at a grid point drawn at random, each index
    /// drawn on its own.
    ///
    /// Nothing keeps the point off the body of a snake.
    pub fn new() -> (food: Food)
        ensures
            food.wf(),
            food@.on_grid(),
            food@.body_size == FOOD_SIZE,
    {
        let kx: i32 = random_in_range(GRID_MIN, GRID_END);
        let ky: i32 = random_in_range(GRID_MIN, GRID_END);
        Food::at(kx, ky)
    }

    /// Creates food of size [`FOOD_SIZE`] where grid lines `kx` and `ky` cross.
    pub fn at(kx: i32, ky: i32) -> (food: Food)
        requires
            is_grid_index(kx as int),
            is_grid_index(ky as int),
        ensures
            food.wf(),
            food@ == (FoodModel {
                body_size: FOOD_SIZE as int,
                position: grid_point(kx as int, ky as int, FOOD_SIZE as int),
            }),
    {
        let food = Food { body_size: FOOD_SIZE, position: grid_position(kx, ky, FOOD_SIZE) };
        assert(food@.position == grid_point(kx as int, ky as int, food@.body_size));
        food
    }

    /// Moves the food to where grid lines `kx` and `ky` cross.
    pub fn place(&mut self, kx: i32, ky: i32)
        requires
            old(self).wf(),
            is_grid_index(kx as int),
            is_grid_index(ky as int),
        ensures
            final(self).wf(),
            final(self)@ == (FoodModel {
                body_size: old(self)@.body_size,
                position: grid_point(kx as int, ky as int, old(self)@.body_size),
            }),
    {
        self.position = grid_position(kx, ky, self.body_size);
    }

    /// Moves the food to a grid point drawn at random, each index drawn on its own.
    ///
    /// Nothing keeps the point off the body of a snake.
    pub fn update_position(&mut self)
        requires
            old(self).wf(),
        ensures
            final(self).wf(),
            final(self)@.on_grid(),
            final(self)@.body_size == old(self)@.body_size,
    {
        let kx: i32 = random_in_range(GRID_MIN, GRID_END);
        let ky: i32 = random_in_range(GRID_MIN, GRID_END);
        self.place(kx, ky);
    }

    /// Where the food lies.
    pub fn position(&self) -> (position: Position)
        ensures
            position@ == self@.position,
    {
        self.position
    }

    /// The edge length of the food.
    pub fn body_size(&self) -> (size: i64)
        ensures
            size == self@.body_size,
    {
        self.body_size
    }
}

} // verus!
