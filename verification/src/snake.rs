//! The snake: an ordered body of tiles, head first, and a heading.

use crate::point::{position, Direction, Point};
use vstd::prelude::*;

verus! {

/// Wraps a coordinate onto the axis `0..=max`: a step past `max` re-enters
/// at `0`, a step below `0` re-enters at `max`.
pub open spec fn wrapped(v: int, max: int) -> int {
    if v > max {
        0
    } else if v < 0 {
        max
    } else {
        v
    }
}

/// A coordinate on the axis stays where it is.
pub proof fn lemma_wrap_keeps_axis(v: int, max: int)
    requires
        0 <= v <= max,
    ensures
        wrapped(v, max) == v,
{
}

/// One step past the end of the axis re-enters at zero.
pub proof fn lemma_wrap_past_end(max: int)
    ensures
        wrapped(max + 1, max) == 0,
{
}

/// One step below zero re-enters at the end of the axis, for every axis
/// that ends at `-1` or above.
pub proof fn lemma_wrap_below_zero(max: int)
    requires
        -1 <= max,
    ensures
        wrapped(-1, max) == max,
{
}

/// A snake as a mathematical value.
pub struct SnakeView {
    /// The occupied tiles, head first.
    pub body: Seq<Point>,
    /// The current heading.
    pub direction: Direction,
}

impl SnakeView {
    /// A snake is alive while it has a body and no tile occurs in it twice.
    pub open spec fn valid(self) -> bool {
        &&& self.body.len() > 0
        &&& self.body.no_duplicates()
    }

    /// The tile of the head.
    pub open spec fn head(self) -> Point
        recommends
            self.body.len() > 0,
    {
        self.body[0]
    }

    /// Whether one step along the heading stays within `i32` on both axes.
    pub open spec fn can_step(self) -> bool {
        &&& i32::MIN <= self.head().x + self.direction.vector().x <= i32::MAX
        &&& i32::MIN <= self.head().y + self.direction.vector().y <= i32::MAX
    }

    /// The tile one step ahead of the head, each axis wrapped on its own.
    pub open spec fn next_position(self, tiles_x: i32, tiles_y: i32) -> Point {
        Point {
            x: wrapped(self.head().x + self.direction.vector().x, tiles_x as int) as i32,
            y: wrapped(self.head().y + self.direction.vector().y, tiles_y as int) as i32,
        }
    }

    /// Whether moving the head onto `next` runs into the body.
    pub open spec fn collides_at(self, next: Point) -> bool {
        self.body.contains(next)
    }

    /// The snake after an attempt to move the head onto `next`. A move onto
    /// the body is rejected and changes nothing; an accepted move puts
    /// `next` in front and, unless expanding, drops the tail.
    pub open spec fn moved_to(self, next: Point, expand: bool) -> SnakeView {
        if self.collides_at(next) {
            self
        } else if expand {
            SnakeView { body: seq![next] + self.body, direction: self.direction }
        } else {
            SnakeView { body: seq![next] + self.body.drop_last(), direction: self.direction }
        }
    }

    /// The snake after its heading is set to `direction`.
    pub open spec fn turned(self, direction: Direction) -> SnakeView {
        SnakeView { body: self.body, direction }
    }

    /// A move, accepted or rejected, leaves a living snake alive: the body
    /// stays non-empty and free of repeated tiles.
    pub proof fn lemma_move_keeps_valid(self, next: Point, expand: bool)
        requires
            self.valid(),
        ensures
            self.moved_to(next, expand).valid(),
    {
        let after = self.moved_to(next, expand).body;
        if !self.collides_at(next) {
            assert forall|i: int, j: int|
                0 <= i < after.len() && 0 <= j < after.len() && i != j implies after[i]
                != after[j] by {
                if i > 0 {
                    assert(after[i] == self.body[i - 1]);
                }
                if j > 0 {
                    assert(after[j] == self.body[j - 1]);
                }
            }
        }
    }

    /// An expanding move onto a free tile makes the body exactly one
    /// segment longer.
    pub proof fn lemma_expanding_move_grows(self, next: Point)
        requires
            self.valid(),
            !self.collides_at(next),
        ensures
            self.moved_to(next, true).body.len() == self.body.len() + 1,
    {
    }

    /// A move that does not expand keeps the length of the body, whether
    /// it is accepted or rejected.
    pub proof fn lemma_plain_move_keeps_length(self, next: Point)
        requires
            self.valid(),
        ensures
            self.moved_to(next, false).body.len() == self.body.len(),
    {
    }

    /// A move onto a tile of the body is rejected and leaves the snake
    /// exactly as it was; any other move puts the head on that tile.
    pub proof fn lemma_move_outcome(self, next: Point, expand: bool)
        requires
            self.valid(),
        ensures
            self.collides_at(next) ==> self.moved_to(next, expand) == self,
            !self.collides_at(next) ==> self.moved_to(next, expand).head() == next,
    {
    }
}

/// A snake on the grid.
pub struct Snake {
    parts: Vec<Point>,
    direction: Direction,
}

impl View for Snake {
    type V = SnakeView;

    closed spec fn view(&self) -> SnakeView {
        SnakeView { body: self.parts@, direction: self.direction }
    }
}

impl Snake {
    /// Whether this snake is alive.
    pub open spec fn wf(&self) -> bool {
        self@.valid()
    }

    /// A snake of one segment at `head`, heading north.
    pub fn new(head: Point) -> (snake: Snake)
        ensures
            snake.wf(),
            snake@ == (SnakeView { body: seq![head], direction: Direction::North }),
    {
        let mut parts: Vec<Point> = Vec::new();
        parts.push(head);
        let snake = Snake { parts, direction: Direction::North };
        assert(snake@.body =~= seq![head]);
        snake
    }

    /// The tile the head would enter next on a `tiles_x` by `tiles_y` grid.
    pub fn get_next_position(&self, tiles_x: i32, tiles_y: i32) -> (next: Point)
        requires
            self.wf(),
            self@.can_step(),
        ensures
            next == self@.next_position(tiles_x, tiles_y),
    {
        let direction = self.direction.get_vector();
        let head = self.parts[0];
        Point {
            x: Self::wrap(head.x + direction.x, tiles_x),
            y: Self::wrap(head.y + direction.y, tiles_y),
        }
    }

    /// Moves the head onto `next`, growing by one segment when `expand` is
    /// set. Returns `None`, and leaves the snake as it was, when `next` is
    /// already part of the body.
    pub fn move_to(&mut self, next: Point, expand: bool) -> (moved: Option<Point>)
        requires
            old(self).wf(),
        ensures
            final(self).wf(),
            final(self)@ == old(self)@.moved_to(next, expand),
            moved == if old(self)@.collides_at(next) {
                None
            } else {
                Some(next)
            },
    {
        match position(&self.parts, next) {
            Some(_index) => return None,
            None => {},
        }
        self.parts.insert(0, next);
        assert(self.parts@ =~= seq![next] + old(self).parts@);
        if !expand {
            self.parts.pop();
            assert(self.parts@ =~= seq![next] + old(self).parts@.drop_last());
        }
        Some(next)
    }

    /// Sets the heading, whatever it was before.
    pub fn change_direction(&mut self, direction: Direction)
        ensures
            final(self)@ == old(self)@.turned(direction),
            final(self).wf() == old(self).wf(),
    {
        self.direction = direction;
    }

    /// The occupied tiles, head first.
    pub fn parts(&self) -> (parts: &Vec<Point>)
        ensures
            parts@ == self@.body,
    {
        &self.parts
    }

    /// The current heading.
    pub fn direction(&self) -> (direction: Direction)
        ensures
            direction == self@.direction,
    {
        self.direction
    }

    /// Wraps a coordinate onto the axis `0..=max`.
    pub fn wrap(v: i32, max: i32) -> (r: i32)
        ensures
            r == wrapped(v as int, max as int),
    {
        if v > max {
            0
        } else if v < 0 {
            max
        } else {
            v
        }
    }
}

} // verus!
