//! Headings on the plane and the rule that forbids turning straight back.
use vstd::prelude::*;

verus! {

/// One of the four headings a segment can face.
///
/// A body segment records the heading it moved in to reach its position.
#[derive(Clone, Copy, Debug, PartialEq, Eq, Structural)]
pub enum Direction {
    Up,
    Down,
    Left,
    Right,
}

impl Direction {
    /// The heading that points the other way along the same axis.
    pub open spec fn opposite(self) -> Direction {
        match self {
            Direction::Up => Direction::Down,
            Direction::Down => Direction::Up,
            Direction::Left => Direction::Right,
            Direction::Right => Direction::Left,
        }
    }

    /// Whether `other` is the exact reversal of `self`.
    pub fn is_opposite(self, other: Direction) -> (r: bool)
        ensures
            r == (other == self.opposite()),
    {
        match self {
            Direction::Up => other == Direction::Down,
            Direction::Down => other == Direction::Up,
            Direction::Left => other == Direction::Right,
            Direction::Right => other == Direction::Left,
        }
    }

    /// The clockwise rotation, in degrees, that turns an upward-drawn sprite to face
    /// this heading.
    pub open spec fn degrees(self) -> int {
        match self {
            Direction::Up => 0,
            Direction::Right => 90,
            Direction::Down => 180,
            Direction::Left => -90,
        }
    }

    /// Computes [`Direction::degrees`].
    pub fn rotation_degrees(self) -> (r: i32)
        ensures
            r == self.degrees(),
    {
        match self {
            Direction::Up => 0,
            Direction::Right => 90,
            Direction::Down => 180,
            Direction::Left => -90,
        }
    }

    /// The shift that brings a sprite `width` wide and `height` high back over its
    /// cell after it was turned to face this heading about its top-left corner. The
    /// shift is measured along the turned axes.
    pub open spec fn pivot(self, width: int, height: int) -> (int, int) {
        match self {
            Direction::Up => (0, 0),
            Direction::Right => (0, -height),
            Direction::Down => (-width, -height),
            Direction::Left => (-width, 0),
        }
    }

    /// Computes [`Direction::pivot`].
    pub fn pivot_offset(self, width: i64, height: i64) -> (shift: (i64, i64))
        requires
            width > i64::MIN,
            height > i64::MIN,
        ensures
            shift.0 == self.pivot(width as int, height as int).0,
            shift.1 == self.pivot(width as int, height as int).1,
    {
        match self {
            Direction::Up => (0, 0),
            Direction::Right => (0, -height),
            Direction::Down => (-width, -height),
            Direction::Left => (-width, 0),
        }
    }
}

/// The heading a snake takes on its next step.
///
/// The request is granted unless it is the exact reversal of `current`, the heading
/// the head last moved in; a reversal is ignored and `current` is kept.
pub open spec fn resolved_heading(current: Direction, requested: Direction) -> Direction {
    if requested == current.opposite() {
        current
    } else {
        requested
    }
}

/// Computes [`resolved_heading`].
pub fn resolve_heading(current: Direction, requested: Direction) -> (heading: Direction)
    ensures
        heading == resolved_heading(current, requested),
{
    if current.is_opposite(requested) {
        current
    } else {
        requested
    }
}

} // verus!
