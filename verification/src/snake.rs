//! The snake: an ordered body of segments that advances one step per tick.
use vstd::prelude::*;
use std::collections::VecDeque;
use crate::direction::Direction;
use crate::direction::resolve_heading;
use crate::direction::resolved_heading;
use crate::fixed::UNITS_PER_ONE;
use crate::geometry::Point;
use crate::geometry::Position;

verus! {

/// How close to a wall a step may end before it is pulled onto the wall: `0.01`.
pub const WALL_MARGIN: i64 = 10_000;

/// The edge length of one body segment of a new snake, and its step: `0.1`.
pub const BODY_SIZE: i64 = 100_000;

/// One step of `body_size` toward the positive wall, stopping on the wall.
///
/// A step that would end beyond the wall, or within [`WALL_MARGIN`] of it, ends
/// exactly on the wall.
pub open spec fn step_forward(coordinate: int, body_size: int) -> int {
    if coordinate + body_size > UNITS_PER_ONE - WALL_MARGIN {
        UNITS_PER_ONE as int
    } else {
        coordinate + body_size
    }
}

/// One step of `body_size` toward the negative wall, stopping on the wall.
pub open spec fn step_backward(coordinate: int, body_size: int) -> int {
    if coordinate - body_size < -UNITS_PER_ONE + WALL_MARGIN {
        -UNITS_PER_ONE as int
    } else {
        coordinate - body_size
    }
}

/// The point reached from `from` by one step of `body_size` along `heading`.
pub open spec fn stepped(from: Point, heading: Direction, body_size: int) -> Point {
    match heading {
        Direction::Up => Point { x: from.x, y: step_forward(from.y, body_size) },
        Direction::Down => Point { x: from.x, y: step_backward(from.y, body_size) },
        Direction::Left => Point { x: step_backward(from.x, body_size), y: from.y },
        Direction::Right => Point { x: step_forward(from.x, body_size), y: from.y },
    }
}

/// Computes [`stepped`].
pub fn step(from: Position, heading: Direction, body_size: i64) -> (to: Position)
    requires
        body_size > 0,
    ensures
        to@ == stepped(from@, heading, body_size as int),
{
    let high: i64 = UNITS_PER_ONE - WALL_MARGIN;
    let low: i64 = WALL_MARGIN - UNITS_PER_ONE;
    match heading {
        Direction::Up => {
            if from.y > high - body_size {
                Position { x: from.x, y: UNITS_PER_ONE }
            } else {
                Position { x: from.x, y: from.y + body_size }
            }
        },
        Direction::Down => {
            if from.y < low + body_size {
                Position { x: from.x, y: -UNITS_PER_ONE }
            } else {
                Position { x: from.x, y: from.y - body_size }
            }
        },
        Direction::Left => {
            if from.x < low + body_size {
                Position { x: -UNITS_PER_ONE, y: from.y }
            } else {
                Position { x: from.x - body_size, y: from.y }
            }
        },
        Direction::Right => {
            if from.x > high - body_size {
                Position { x: UNITS_PER_ONE, y: from.y }
            } else {
                Position { x: from.x + body_size, y: from.y }
            }
        },
    }
}

/// A step from a point on the plane ends on the plane.
pub proof fn lemma_step_stays_in_bounds(from: Point, heading: Direction, body_size: int)
    requires
        from.in_bounds(),
        body_size > 0,
    ensures
        stepped(from, heading, body_size).in_bounds(),
{
}

/// A step toward a wall from a point on that wall ends where it began: the wall stops
/// the snake, neither wrapping it around nor pushing it back.
pub proof fn lemma_wall_stops_step(from: Point, heading: Direction, body_size: int)
    requires
        body_size > 0,
        match heading {
            Direction::Up => from.y == UNITS_PER_ONE,
            Direction::Down => from.y == -UNITS_PER_ONE,
            Direction::Left => from.x == -UNITS_PER_ONE,
            Direction::Right => from.x == UNITS_PER_ONE,
        },
    ensures
        stepped(from, heading, body_size) == from,
{
}

/// The mathematical model of a [`BodySegment`].
pub struct SegmentModel {
    pub position: Point,
    pub direction: Direction,
}

/// One segment of the body: where it is and the heading it arrived by.
#[derive(Clone, Copy, Debug, PartialEq, Eq, Structural)]
pub struct BodySegment {
    pub position: Position,
    pub direction: Direction,
}

impl View for BodySegment {
    type V = SegmentModel;

    open spec fn view(&self) -> SegmentModel {
        SegmentModel { position: self.position@, direction: self.direction }
    }
}

/// The mathematical model of a [`Snake`].
pub struct SnakeModel {
    /// The heading asked for by the player, applied at the next step if it is no reversal.
    pub requested_direction: Direction,
    /// The edge length of a segment, which is also the length of a step.
    pub body_size: int,
    /// The segments from head (index 0) to tail (last index).
    pub body: Seq<SegmentModel>,
    /// Whether the next step drops the tail. It is false for exactly one step after
    /// food was eaten, and that step lengthens the body by one segment.
    pub pop_next_update: bool,
}

impl SnakeModel {
    /// The body is not empty, every segment lies on the plane, and a segment is
    /// larger than nothing and no larger than the plane.
    pub open spec fn wf(self) -> bool {
        &&& self.body.len() > 0
        &&& 0 < self.body_size <= 2 * UNITS_PER_ONE
        &&& forall|i: int| 0 <= i < self.body.len() ==> (#[trigger] self.body[i]).position.in_bounds()
    }

    /// The segment at the front of the body.
    pub open spec fn head(self) -> SegmentModel {
        self.body[0]
    }

    /// The heading of the next step.
    pub open spec fn next_heading(self) -> Direction {
        resolved_heading(self.head().direction, self.requested_direction)
    }

    /// The head that the next step puts in front of the body.
    pub open spec fn next_head(self) -> SegmentModel {
        SegmentModel {
            position: stepped(self.head().position, self.next_heading(), self.body_size),
            direction: self.next_heading(),
        }
    }

    /// The snake after one step: a new head in front, the tail dropped unless food was
    /// eaten on the step before, and the tail due to be dropped again next time.
    pub open spec fn advanced(self) -> SnakeModel {
        let grown = seq![self.next_head()] + self.body;
        SnakeModel {
            requested_direction: self.requested_direction,
            body_size: self.body_size,
            body: if self.pop_next_update {
                grown.drop_last()
            } else {
                grown
            },
            pop_next_update: true,
        }
    }
}

/// The snake of a new game: three segments in a column from the centre of the plane
/// downward, all heading up.
pub open spec fn initial_snake() -> SnakeModel {
    SnakeModel {
        requested_direction: Direction::Up,
        body_size: BODY_SIZE as int,
        body: seq![
            SegmentModel { position: Point { x: 0, y: 0 }, direction: Direction::Up },
            SegmentModel { position: Point { x: 0, y: -BODY_SIZE }, direction: Direction::Up },
            SegmentModel { position: Point { x: 0, y: -2 * BODY_SIZE }, direction: Direction::Up },
        ],
        pop_next_update: true,
    }
}

/// A snake on the plane.
///
/// The fields are private: a snake is made by [`Snake::new`] and changed only by the
/// methods below, each of which keeps it well formed.
pub struct Snake {
    requested_direction: Direction,
    body_size: i64,
    body_segments: VecDeque<BodySegment>,
    pop_next_update: bool,
}

impl View for Snake {
    type V = SnakeModel;

    closed spec fn view(&self) -> SnakeModel {
        SnakeModel {
            requested_direction: self.requested_direction,
            body_size: self.body_size as int,
            body: self.body_segments@.map_values(|s: BodySegment| s@),
            pop_next_update: self.pop_next_update,
        }
    }
}

impl Snake {
    /// The invariant of a snake: its model is well formed.
    pub open spec fn wf(&self) -> bool {
        self@.wf()
    }

    /// Creates the snake of a new game.
    pub fn new() -> (snake: Snake)
        ensures
            snake.wf(),
            snake@ == initial_snake(),
    {
        let mut body_segments: VecDeque<BodySegment> = VecDeque::new();
        body_segments.push_back(
            BodySegment { position: Position { x: 0, y: 0 }, direction: Direction::Up },
        );
        body_segments.push_back(
            BodySegment { position: Position { x: 0, y: -BODY_SIZE }, direction: Direction::Up },
        );
        body_segments.push_back(
            BodySegment {
                position: Position { x: 0, y: -2 * BODY_SIZE },
                direction: Direction::Up,
            },
        );
        let snake = Snake {
            requested_direction: Direction::Up,
            body_size: BODY_SIZE,
            body_segments,
            pop_next_update: true,
        };
        assert(snake@.body =~= initial_snake().body);
        snake
    }

    /// Advances the snake by one step.
    ///
    /// The requested heading is taken unless it reverses the head's heading. The new
    /// head is pushed in front; the tail is dropped unless the snake is due to grow.
    pub fn update_position(&mut self)
        requires
            old(self).wf(),
        ensures
            final(self).wf(),
            final(self)@ == old(self)@.advanced(),
    {
        let head: BodySegment = self.body_segments[0];
        assert(head@ == self@.head());
        let heading: Direction = resolve_heading(head.direction, self.requested_direction);
        let position: Position = step(head.position, heading, self.body_size);
        let new_head: BodySegment = BodySegment { position, direction: heading };
        proof {
            lemma_step_stays_in_bounds(head@.position, heading, self.body_size as int);
        }
        self.body_segments.push_front(new_head);
        assert(self@.body =~= seq![old(self)@.next_head()] + old(self)@.body);
        if self.pop_next_update {
            let ghost grown = self@.body;
            self.body_segments.pop_back();
            assert(self@.body =~= grown.drop_last());
        }
        self.pop_next_update = true;
    }

    /// Records the heading the player asks for. It takes effect at the next step,
    /// unless it would then reverse the head's heading.
    pub fn set_requested_direction(&mut self, direction: Direction)
        ensures
            final(self)@ == (SnakeModel { requested_direction: direction, ..old(self)@ }),
            old(self).wf() ==> final(self).wf(),
    {
        self.requested_direction = direction;
    }

    /// Makes the next step keep the tail, so that the body grows by one segment.
    pub fn grow_on_next_update(&mut self)
        ensures
            final(self)@ == (SnakeModel { pop_next_update: false, ..old(self)@ }),
            old(self).wf() ==> final(self).wf(),
    {
        self.pop_next_update = false;
    }

    /// The head: the segment at the front of the body.
    pub fn head(&self) -> (segment: BodySegment)
        requires
            self.wf(),
        ensures
            segment@ == self@.head(),
    {
        self.body_segments[0]
    }

    /// The segment at `index`, counted from the head.
    pub fn segment(&self, index: usize) -> (segment: BodySegment)
        requires
            index < self@.body.len(),
        ensures
            segment@ == self@.body[index as int],
    {
        self.body_segments[index]
    }

    /// The number of segments in the body.
    pub fn len(&self) -> (n: usize)
        ensures
            n == self@.body.len(),
    {
        self.body_segments.len()
    }

    /// The edge length of a segment.
    pub fn body_size(&self) -> (size: i64)
        ensures
            size == self@.body_size,
    {
        self.body_size
    }

    /// The heading the player last asked for.
    pub fn requested_direction(&self) -> (direction: Direction)
        ensures
            direction == self@.requested_direction,
    {
        self.requested_direction
    }

    /// Whether the next step drops the tail.
    pub fn pop_next_update(&self) -> (pending: bool)
        ensures
            pending == self@.pop_next_update,
    {
        self.pop_next_update
    }
}

/// A requested heading that does not reverse the head's heading is the head's heading
/// after one step.
pub proof fn lemma_turn_is_taken(snake: SnakeModel)
    requires
        snake.wf(),
        snake.requested_direction != snake.head().direction.opposite(),
    ensures
        snake.advanced().head().direction == snake.requested_direction,
{
}

/// A requested heading that reverses the head's heading is ignored: after one step the
/// head still has the heading it had before.
pub proof fn lemma_reversal_is_ignored(snake: SnakeModel)
    requires
        snake.wf(),
        snake.requested_direction == snake.head().direction.opposite(),
    ensures
        snake.advanced().head().direction == snake.head().direction,
{
}

/// A step changes the length of the body by exactly the growth that was pending:
/// none if the tail is due to be dropped, one segment otherwise.
pub proof fn lemma_step_length(snake: SnakeModel)
    requires
        snake.wf(),
    ensures
        snake.advanced().wf(),
        snake.pop_next_update ==> snake.advanced().body.len() == snake.body.len(),
        !snake.pop_next_update ==> snake.advanced().body.len() == snake.body.len() + 1,
{
    lemma_step_stays_in_bounds(snake.head().position, snake.next_heading(), snake.body_size);
}

} // verus!
