//! Tile coordinates and headings.

use vstd::prelude::*;

verus! {

/// A position in tile space. Equality is structural.
#[derive(Debug, Copy, Clone, PartialEq, Eq, Structural)]
pub struct Point {
    pub x: i32,
    pub y: i32,
}

/// One of the four headings a snake can take.
#[derive(Debug, Copy, Clone, PartialEq, Eq, Structural)]
pub enum Direction {
    North,
    South,
    East,
    West,
}

impl Direction {
    /// The unit step of this heading; the y axis grows downwards.
    pub open spec fn vector(self) -> Point {
        match self {
            Direction::North => Point { x: 0, y: -1i32 },
            Direction::South => Point { x: 0, y: 1 },
            Direction::East => Point { x: 1, y: 0 },
            Direction::West => Point { x: -1i32, y: 0 },
        }
    }

    /// Returns the unit step of this heading.
    pub fn get_vector(&self) -> (v: Point)
        ensures
            v == self.vector(),
    {
        match self {
            Direction::North => Point { x: 0, y: -1 },
            Direction::South => Point { x: 0, y: 1 },
            Direction::East => Point { x: 1, y: 0 },
            Direction::West => Point { x: -1, y: 0 },
        }
    }
}

/// Finds the first index at which `target` occurs in `points`.
pub fn position(points: &Vec<Point>, target: Point) -> (found: Option<usize>)
    ensures
        match found {
            Some(i) => {
                &&& i < points.len()
                &&& points@[i as int] == target
                &&& points@.index_of_first(target) == Some(i as int)
            },
            None => {
                &&& !points@.contains(target)
                &&& points@.index_of_first(target) is None
            },
        },
{
    let mut i: usize = 0;
    while i < points.len()
        invariant
            i <= points.len(),
            forall|j: int| 0 <= j < i ==> points@[j] != target,
        decreases points.len() - i,
    {
        if points[i] == target {
            proof {
                points@.index_of_first_ensures(target);
            }
            return Some(i);
        }
        i += 1;
    }
    proof {
        points@.index_of_first_ensures(target);
    }
    None
}

} // verus!
