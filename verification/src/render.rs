//! What a frame shows: one sprite per body segment and one for the food, placed,
//! turned and scaled for a window of a given size.
//!
//! Nothing is drawn here. A frame lists, in drawing order, the numbers a renderer
//! needs; all of them are fixed-point (see [`crate::fixed`]).
use vstd::prelude::*;
use crate::fixed::UNITS_PER_ONE;
use crate::food::Food;
use crate::food::FoodModel;
use crate::food::lemma_food_in_bounds;
use crate::geometry::Position;
use crate::geometry::calculate_texture_scale;
use crate::geometry::lemma_pixel_length_within_window;
use crate::geometry::lemma_pixel_within_window;
use crate::geometry::lemma_texture_scale_within_window;
use crate::geometry::ndc_to_pixel_length;
use crate::geometry::pixel_length;
use crate::geometry::pixel_x;
use crate::geometry::pixel_y;
use crate::geometry::texture_scale;
use crate::snake::BodySegment;
use crate::snake::SegmentModel;
use crate::snake::Snake;
use crate::snake::SnakeModel;

verus! {

/// The edge length, in pixels, of the square images that segments are drawn with: `225`.
pub const TEXTURE_PIXEL_LENGTH: i64 = 225_000_000;

/// Which image a segment is drawn with.
#[derive(Clone, Copy, Debug, PartialEq, Eq, Structural)]
pub enum SegmentRole {
    /// The segment at the front of the body.
    Head,
    /// The segment at the back of a body of two or more segments.
    Tail,
    /// Any segment in between.
    Body,
}

impl SegmentRole {
    /// Where the image of this role stands among the images of a snake: head first,
    /// tail second, body third.
    pub open spec fn image_index(self) -> int {
        match self {
            SegmentRole::Head => 0,
            SegmentRole::Tail => 1,
            SegmentRole::Body => 2,
        }
    }

    /// Computes [`SegmentRole::image_index`].
    pub fn texture_index(self) -> (index: usize)
        ensures
            index == self.image_index(),
    {
        match self {
            SegmentRole::Head => 0,
            SegmentRole::Tail => 1,
            SegmentRole::Body => 2,
        }
    }
}

/// The role of the segment at `index` in a body of `len` segments.
pub open spec fn role_at(index: int, len: int) -> SegmentRole {
    if index == 0 {
        SegmentRole::Head
    } else if index == len - 1 {
        SegmentRole::Tail
    } else {
        SegmentRole::Body
    }
}

/// Computes [`role_at`].
pub fn segment_role(index: usize, len: usize) -> (role: SegmentRole)
    requires
        index < len,
    ensures
        role == role_at(index as int, len as int),
{
    if index == 0 {
        SegmentRole::Head
    } else if index == len - 1 {
        SegmentRole::Tail
    } else {
        SegmentRole::Body
    }
}

/// How to draw one body segment. A renderer moves its origin to `(x, y)` and on by
/// `(center_dx, center_dy)`, turns by `rotation_degrees`, moves on by
/// `(pivot_dx, pivot_dy)`, scales by `(scale_x, scale_y)` and then draws the image
/// of `role`.
#[derive(Clone, Copy, Debug, PartialEq, Eq, Structural)]
pub struct SegmentSprite {
    pub role: SegmentRole,
    /// The pixel the segment's position maps to.
    pub x: i64,
    pub y: i64,
    /// Minus half a segment, in pixels along each axis.
    pub center_dx: i64,
    pub center_dy: i64,
    /// The clockwise turn that makes the image face the segment's heading.
    pub rotation_degrees: i32,
    /// The shift, in the turned frame, that brings the turned image back over its cell.
    pub pivot_dx: i64,
    pub pivot_dy: i64,
    /// The factors that scale the image to the size of a segment.
    pub scale_x: i64,
    pub scale_y: i64,
}

/// How to draw the food: a disc of the given radius, centred on the pixel `(x, y)`
/// moved by `(center_dx, center_dy)`.
#[derive(Clone, Copy, Debug, PartialEq, Eq, Structural)]
pub struct FoodSprite {
    /// The pixel the food's position maps to.
    pub x: i64,
    pub y: i64,
    /// Minus half the food, in pixels along each axis.
    pub center_dx: i64,
    pub center_dy: i64,
    /// Half the height of the food in pixels.
    pub radius: i64,
}

/// Everything one frame shows.
pub struct Frame {
    /// The body from tail to head, so that the head is drawn last and on top.
    pub segments: Vec<SegmentSprite>,
    pub food: FoodSprite,
}

/// Whether `sprite` is the drawing of `segment`, in the given role and of the given
/// size, for a window `win_height` high and `win_width` wide.
pub open spec fn depicts_segment(
    sprite: SegmentSprite,
    segment: SegmentModel,
    role: SegmentRole,
    body_size: int,
    win_height: int,
    win_width: int,
) -> bool {
    &&& sprite.role == role
    &&& sprite.x == pixel_x(segment.position.x, win_width)
    &&& sprite.y == pixel_y(segment.position.y, win_height)
    &&& sprite.center_dx == -pixel_length(body_size / 2, win_width)
    &&& sprite.center_dy == -pixel_length(body_size / 2, win_height)
    &&& sprite.rotation_degrees == segment.direction.degrees()
    &&& sprite.pivot_dx == segment.direction.pivot(
        pixel_length(body_size, win_width),
        pixel_length(body_size, win_height),
    ).0
    &&& sprite.pivot_dy == segment.direction.pivot(
        pixel_length(body_size, win_width),
        pixel_length(body_size, win_height),
    ).1
    &&& sprite.scale_x == texture_scale(body_size, win_width, TEXTURE_PIXEL_LENGTH as int)
    &&& sprite.scale_y == texture_scale(body_size, win_height, TEXTURE_PIXEL_LENGTH as int)
}

/// Whether `sprite` is the drawing of `food` for a window `win_height` high and
/// `win_width` wide.
pub open spec fn depicts_food(
    sprite: FoodSprite,
    food: FoodModel,
    win_height: int,
    win_width: int,
) -> bool {
    &&& sprite.x == pixel_x(food.position.x, win_width)
    &&& sprite.y == pixel_y(food.position.y, win_height)
    &&& sprite.center_dx == -pixel_length(food.body_size / 2, win_width)
    &&& sprite.center_dy == -pixel_length(food.body_size / 2, win_height)
    &&& sprite.radius == pixel_length(food.body_size, win_height) / 2
}

/// Whether `frame` shows `snake` and `food`: one sprite for each segment, the tail
/// first and the head last, and the sprite of the food.
pub open spec fn depicts(
    frame: Frame,
    snake: SnakeModel,
    food: FoodModel,
    win_height: int,
    win_width: int,
) -> bool {
    &&& frame.segments@.len() == snake.body.len()
    &&& forall|k: int|
        0 <= k < snake.body.len() ==> depicts_segment(
            #[trigger] frame.segments@[k],
            snake.body[snake.body.len() - 1 - k],
            role_at(snake.body.len() - 1 - k, snake.body.len() as int),
            snake.body_size,
            win_height,
            win_width,
        )
    &&& depicts_food(frame.food, food, win_height, win_width)
}

/// Works out how to draw one body segment.
pub fn segment_sprite(
    segment: BodySegment,
    role: SegmentRole,
    body_size: i64,
    win_height: i64,
    win_width: i64,
) -> (sprite: SegmentSprite)
    requires
        segment@.position.in_bounds(),
        0 < body_size <= 2 * UNITS_PER_ONE,
        0 <= win_height,
        0 <= win_width,
    ensures
        depicts_segment(
            sprite,
            segment@,
            role,
            body_size as int,
            win_height as int,
            win_width as int,
        ),
{
    let half: i64 = body_size / 2;
    proof {
        lemma_pixel_within_window(segment@.position, win_height as int, win_width as int);
        lemma_pixel_length_within_window(half as int, win_width as int);
        lemma_pixel_length_within_window(half as int, win_height as int);
        lemma_pixel_length_within_window(body_size as int, win_width as int);
        lemma_pixel_length_within_window(body_size as int, win_height as int);
        lemma_texture_scale_within_window(
            body_size as int,
            win_width as int,
            TEXTURE_PIXEL_LENGTH as int,
        );
        lemma_texture_scale_within_window(
            body_size as int,
            win_height as int,
            TEXTURE_PIXEL_LENGTH as int,
        );
    }
    let (x, y) = segment.position.to_pixel_pos(win_height, win_width);
    let width: i64 = ndc_to_pixel_length(&body_size, &win_width);
    let height: i64 = ndc_to_pixel_length(&body_size, &win_height);
    let (pivot_dx, pivot_dy) = segment.direction.pivot_offset(width, height);
    SegmentSprite {
        role,
        x,
        y,
        center_dx: -ndc_to_pixel_length(&half, &win_width),
        center_dy: -ndc_to_pixel_length(&half, &win_height),
        rotation_degrees: segment.direction.rotation_degrees(),
        pivot_dx,
        pivot_dy,
        scale_x: calculate_texture_scale(&body_size, &win_width, &TEXTURE_PIXEL_LENGTH),
        scale_y: calculate_texture_scale(&body_size, &win_height, &TEXTURE_PIXEL_LENGTH),
    }
}

/// Works out how to draw the food.
pub fn food_sprite(food: &Food, win_height: i64, win_width: i64) -> (sprite: FoodSprite)
    requires
        food.wf(),
        0 <= win_height,
        0 <= win_width,
    ensures
        depicts_food(sprite, food@, win_height as int, win_width as int),
{
    let position: Position = food.position();
    let body_size: i64 = food.body_size();
    let half: i64 = body_size / 2;
    proof {
        lemma_food_in_bounds(food@);
        lemma_pixel_within_window(position@, win_height as int, win_width as int);
        lemma_pixel_length_within_window(half as int, win_width as int);
        lemma_pixel_length_within_window(half as int, win_height as int);
        lemma_pixel_length_within_window(body_size as int, win_height as int);
    }
    let (x, y) = position.to_pixel_pos(win_height, win_width);
    FoodSprite {
        x,
        y,
        center_dx: -ndc_to_pixel_length(&half, &win_width),
        center_dy: -ndc_to_pixel_length(&half, &win_height),
        radius: ndc_to_pixel_length(&body_size, &win_height) / 2,
    }
}

/// Works out one frame for a window `win_height` high and `win_width` wide: the
/// segments from tail to head, then the food.
pub fn render(snake: &Snake, food: &Food, win_height: i64, win_width: i64) -> (frame: Frame)
    requires
        snake.wf(),
        food.wf(),
        0 <= win_height,
        0 <= win_width,
    ensures
        depicts(frame, snake@, food@, win_height as int, win_width as int),
{
    let body_size: i64 = snake.body_size();
    let len: usize = snake.len();
    let mut segments: Vec<SegmentSprite> = Vec::new();
    let mut index: usize = len;
    while index > 0
        invariant
            snake.wf(),
            0 <= win_height,
            0 <= win_width,
            len == snake@.body.len(),
            body_size == snake@.body_size,
            index <= len,
            segments@.len() == len - index,
            forall|k: int|
                0 <= k < segments@.len() ==> depicts_segment(
                    #[trigger] segments@[k],
                    snake@.body[len - 1 - k],
                    role_at(len - 1 - k, len as int),
                    body_size as int,
                    win_height as int,
                    win_width as int,
                ),
        decreases index,
    {
        index = index - 1;
        let segment: BodySegment = snake.segment(index);
        let role: SegmentRole = segment_role(index, len);
        let sprite: SegmentSprite = segment_sprite(segment, role, body_size, win_height, win_width);
        segments.push(sprite);
    }
    Frame { segments, food: food_sprite(food, win_height, win_width) }
}

} // verus!
